//! The identity-keyed graph registry.
//!
//! The registry owns a mapping from identity keys to registered entries —
//! a stored factory, its target duration and its playback configuration —
//! with unique keys and no meaningful order.  Registration overwrites,
//! removal of an absent key is a no-op, lookup builds a fresh source from
//! the stored recipe, and one bulk pass renders every entry to decodable
//! sound data.

use vstd::prelude::*;

use crate::FnDspGraph;
use crate::GraphIdentity;
use crate::{pairs_cover, pairs_key_index, pairs_keys_distinct};
use crate::dsp::{DspError, DspSource, default_sound_settings};

verus! {

broadcast use vstd::std_specs::vec::group_vec_axioms;

/// One registered entry: a stored factory, its target duration, and its
/// playback configuration.
pub struct DspGraph {
    func: Box<dyn FnDspGraph>,
    duration_secs: u32,
    settings: kira::sound::static_sound::StaticSoundSettings,
}

/// The model of one registry entry: what the entry will be rendered with.
pub ghost struct GraphMeta {
    /// The target duration, in whole seconds.
    pub duration_secs: u32,
    /// The playback configuration handed to the audio backend.
    pub settings: kira::sound::static_sound::StaticSoundSettings,
}

impl DspGraph {
    /// The target duration, in whole seconds.
    pub closed spec fn duration_spec(&self) -> u32 {
        self.duration_secs
    }

    /// The playback configuration.
    pub closed spec fn settings_spec(&self) -> kira::sound::static_sound::StaticSoundSettings {
        self.settings
    }

    /// The model of this entry.
    pub open spec fn meta(&self) -> GraphMeta {
        GraphMeta { duration_secs: self.duration_spec(), settings: self.settings_spec() }
    }

    /// Create a new entry from the graph factory and its length in whole
    /// seconds, with the neutral playback configuration.
    pub fn new(func: Box<dyn FnDspGraph>, duration_secs: u32) -> (r: Self)
        ensures
            r.duration_spec() == duration_secs,
    {
        DspGraph { func, duration_secs, settings: default_sound_settings() }
    }

    /// Create a new entry from the graph factory, its length in whole
    /// seconds, and the playback configuration.
    pub fn with_settings(
        func: Box<dyn FnDspGraph>,
        duration_secs: u32,
        settings: kira::sound::static_sound::StaticSoundSettings,
    ) -> (r: Self)
        ensures
            r.duration_spec() == duration_secs,
            r.settings_spec() == settings,
    {
        DspGraph { func, duration_secs, settings }
    }
}

/// The mapping an entry sequence stands for.
pub open spec fn seq_to_map(s: Seq<(GraphIdentity, DspGraph)>) -> Map<u64, GraphMeta> {
    Map::new(|k: u64| pairs_cover(s, k), |k: u64| s[pairs_key_index(s, k)].1.meta())
}

/// With distinct keys, the entry at index `i` is the one its key maps to.
proof fn lemma_key_at_index(s: Seq<(GraphIdentity, DspGraph)>, i: int)
    requires
        pairs_keys_distinct(s),
        0 <= i < s.len(),
    ensures
        pairs_cover(s, s[i].0.id()),
        pairs_key_index(s, s[i].0.id()) == i,
        seq_to_map(s).dom().contains(s[i].0.id()),
        seq_to_map(s)[s[i].0.id()] == s[i].1.meta(),
{
    let k = s[i].0.id();
    assert(pairs_cover(s, k));
    let j = pairs_key_index(s, k);
    assert(0 <= j < s.len() && s[j].0.id() == k);
    if i < j {
        assert(s[i].0.id() != s[j].0.id());
    } else if j < i {
        assert(s[j].0.id() != s[i].0.id());
    }
}

/// Manages all registered DSP graphs, keyed by their identities, and holds
/// the sample rate used by the bulk render pass.
pub struct DspManager {
    graphs: Vec<(GraphIdentity, DspGraph)>,
    sample_rate: u32,
}

impl View for DspManager {
    type V = Map<u64, GraphMeta>;

    open spec fn view(&self) -> Map<u64, GraphMeta> {
        seq_to_map(self.entries())
    }
}

impl DspManager {
    /// The registered entries, in storage order.
    pub closed spec fn entries(&self) -> Seq<(GraphIdentity, DspGraph)> {
        self.graphs@
    }

    /// The sample rate of the bulk render pass, in frames per second.
    pub closed spec fn rate_spec(&self) -> u32 {
        self.sample_rate
    }

    /// Keys are pairwise distinct and the sample rate is renderable.
    pub open spec fn wf(&self) -> bool {
        &&& pairs_keys_distinct(self.entries())
        &&& 1 <= self.rate_spec() <= 384000
    }

    /// Find the storage index of `id`, if registered.
    fn find_index(&self, id: GraphIdentity) -> (r: Option<usize>)
        ensures
            match r {
                Some(i) => i < self.entries().len() && self.entries()[i as int].0 == id,
                None => !pairs_cover(self.entries(), id.id()),
            },
    {
        let n = self.graphs.len();
        let mut j: usize = 0;
        while j < n
            invariant
                n == self.entries().len(),
                j <= n,
                forall|i: int| 0 <= i < j ==> (#[trigger] self.entries()[i]).0.id() != id.id(),
            decreases n - j,
        {
            if self.graphs[j].0.0 == id.0 {
                assert(self.entries()[j as int].0 == id);
                return Some(j);
            }
            j = j + 1;
        }
        None
    }

    /// Add a new graph entry under `id`, with the given playback
    /// configuration.  Inserts, or overwrites whatever was registered
    /// under the same identity: the last registration wins.
    pub fn add_graph_with_settings(
        &mut self,
        id: GraphIdentity,
        func: Box<dyn FnDspGraph>,
        duration_secs: u32,
        settings: kira::sound::static_sound::StaticSoundSettings,
    )
        requires
            old(self).wf(),
        ensures
            final(self).wf(),
            final(self)@ == old(self)@.insert(
                id.id(),
                GraphMeta { duration_secs, settings },
            ),
            final(self).rate_spec() == old(self).rate_spec(),
    {
        let entry = DspGraph::with_settings(func, duration_secs, settings);
        let ghost s0 = self.entries();
        match self.find_index(id) {
            Some(i) => {
                self.graphs.remove(i);
                self.graphs.insert(i, (id, entry));
                proof {
                    let s1 = self.entries();
                    assert(s1 =~= s0.update(i as int, s1[i as int]));
                    lemma_update_map(s0, i as int, s1[i as int]);
                    assert(self@ =~= old(self)@.insert(
                        id.id(),
                        GraphMeta { duration_secs, settings },
                    ));
                }
            },
            None => {
                self.graphs.push((id, entry));
                proof {
                    lemma_push_map(s0, self.entries()[s0.len() as int]);
                    assert(self@ =~= old(self)@.insert(
                        id.id(),
                        GraphMeta { duration_secs, settings },
                    ));
                }
            },
        }
    }

    /// Add a new graph entry under `id` with the neutral playback
    /// configuration.  The last registration under an identity wins.
    pub fn add_graph(&mut self, id: GraphIdentity, func: Box<dyn FnDspGraph>, duration_secs: u32)
        requires
            old(self).wf(),
        ensures
            final(self).wf(),
            final(self)@.dom() == old(self)@.dom().insert(id.id()),
            final(self)@[id.id()].duration_secs == duration_secs,
            forall|k: u64|
                k != id.id() && old(self)@.dom().contains(k) ==> final(self)@[k] == old(self)@[k],
            final(self).rate_spec() == old(self).rate_spec(),
    {
        let settings = default_sound_settings();
        self.add_graph_with_settings(id, func, duration_secs, settings);
    }

    /// Remove the entry registered under `id`.  Removing an absent
    /// identity is a no-op, not an error.
    pub fn remove_graph(&mut self, id: GraphIdentity)
        requires
            old(self).wf(),
        ensures
            final(self).wf(),
            final(self)@ == old(self)@.remove(id.id()),
            final(self).rate_spec() == old(self).rate_spec(),
    {
        let ghost s0 = self.entries();
        match self.find_index(id) {
            Some(i) => {
                self.graphs.remove(i);
                proof {
                    lemma_remove_map(s0, i as int);
                    assert(self@ =~= old(self)@.remove(id.id()));
                }
            },
            None => {
                proof {
                    assert(!self@.dom().contains(id.id()));
                    assert(self@ =~= old(self)@.remove(id.id()));
                }
            },
        }
    }

    /// Build a fresh source for the entry registered under `id`: a brand
    /// new graph instance from the stored factory, wrapped with the stored
    /// duration.  Absent identities yield absent, not an error.
    pub fn get_graph(&self, id: GraphIdentity) -> (r: Option<DspSource>)
        requires
            self.wf(),
        ensures
            match r {
                Some(src) => self@.dom().contains(id.id()) && src.duration_spec()
                    == self@[id.id()].duration_secs,
                None => !self@.dom().contains(id.id()),
            },
    {
        match self.find_index(id) {
            Some(i) => {
                proof {
                    lemma_key_at_index(self.entries(), i as int);
                }
                let entry = &self.graphs[i].1;
                let net = entry.func.generate_graph();
                Some(DspSource::new(net, entry.duration_secs))
            },
            None => None,
        }
    }
}

impl Default for DspManager {
    /// An empty registry with the customary audio sample rate.
    fn default() -> (r: Self)
        ensures
            r.wf(),
            r@ == Map::<u64, GraphMeta>::empty(),
            r.rate_spec() == 44100,
    {
        let r = DspManager { graphs: Vec::new(), sample_rate: 44100 };
        proof {
            assert(r@ =~= Map::<u64, GraphMeta>::empty());
        }
        r
    }
}

impl DspManager {
    /// The sample rate of the bulk render pass, in frames per second.
    pub fn sample_rate(&self) -> (r: u32)
        ensures
            r == self.rate_spec(),
    {
        self.sample_rate
    }

    /// Render every registered entry to decodable sound data in one bulk
    /// pass: build a fresh graph from each stored factory, render it with
    /// the stored duration and configuration, and pair it with its
    /// identity.  Yields one sound per registered identity, each identity
    /// exactly once; the first failing entry aborts the whole pass.
    pub fn add_assets(&self) -> (r: Result<
        Vec<(GraphIdentity, kira::sound::static_sound::StaticSoundData)>,
        (GraphIdentity, DspError),
    >)
        requires
            self.wf(),
        ensures
            r matches Ok(v) ==> forall|i: int, j: int|
                0 <= i < j < v@.len() ==> (#[trigger] v@[i]).0.id() != (#[trigger] v@[j]).0.id(),
            r matches Ok(v) ==> forall|i: int|
                0 <= i < v@.len() ==> self@.dom().contains((#[trigger] v@[i]).0.id()),
            r matches Ok(v) ==> forall|k: u64|
                #[trigger] self@.dom().contains(k) ==> pairs_cover(v@, k),
            r matches Err(p) ==> self@.dom().contains(p.0.id()),
    {
        let mut out: Vec<(GraphIdentity, kira::sound::static_sound::StaticSoundData)> =
            Vec::new();
        let n = self.graphs.len();
        let mut i: usize = 0;
        while i < n
            invariant
                self.wf(),
                n == self.entries().len(),
                i <= n,
                out@.len() == i as int,
                forall|k: int| 0 <= k < i ==> (#[trigger] out@[k]).0 == self.entries()[k].0,
            decreases n - i,
        {
            let id = self.graphs[i].0;
            let entry = &self.graphs[i].1;
            let net = entry.func.generate_graph();
            let src = DspSource::new(net, entry.duration_secs);
            match src.into_kira_sound_data(self.sample_rate, entry.settings) {
                Ok(sound) => {
                    out.push((id, sound));
                },
                Err(e) => {
                    proof {
                        lemma_key_at_index(self.entries(), i as int);
                    }
                    return Err((id, e));
                },
            }
            i = i + 1;
        }
        proof {
            let s = self.entries();
            assert forall|a: int, b: int| 0 <= a < b < out@.len() implies (
            #[trigger] out@[a]).0.id() != (#[trigger] out@[b]).0.id() by {
                assert(s[a].0.id() != s[b].0.id());
            }
            assert forall|a: int| 0 <= a < out@.len() implies self@.dom().contains(
                (#[trigger] out@[a]).0.id(),
            ) by {
                lemma_key_at_index(s, a);
            }
            assert forall|k: u64| #[trigger] self@.dom().contains(k) implies pairs_cover(
                out@,
                k,
            ) by {
                let j = pairs_key_index(s, k);
                assert(s[j].0.id() == k);
                assert(out@[j].0.id() == k);
            }
        }
        Ok(out)
    }
}

/// The last registration wins: registering under one identity twice
/// leaves only the second entry behind for that identity, leaving every
/// other identity untouched.
pub proof fn lemma_second_registration_wins(
    m: Map<u64, GraphMeta>,
    k: u64,
    first: GraphMeta,
    second: GraphMeta,
)
    ensures
        m.insert(k, first).insert(k, second)[k] == second,
        forall|other: u64|
            other != k && m.dom().contains(other) ==> m.insert(k, first).insert(k, second)[other]
                == m[other],
{
}

/// Removal makes an identity absent: after removing `k`, a lookup of `k`
/// yields absent, whether or not `k` was registered before.
pub proof fn lemma_removed_identity_absent(m: Map<u64, GraphMeta>, k: u64)
    ensures
        !m.remove(k).dom().contains(k),
{
}

/// Updating the entry at a key's index updates the mapping at that key.
proof fn lemma_update_map(
    s: Seq<(GraphIdentity, DspGraph)>,
    i: int,
    e: (GraphIdentity, DspGraph),
)
    requires
        pairs_keys_distinct(s),
        0 <= i < s.len(),
        e.0.id() == s[i].0.id(),
    ensures
        pairs_keys_distinct(s.update(i, e)),
        seq_to_map(s.update(i, e)) =~= seq_to_map(s).insert(e.0.id(), e.1.meta()),
{
    let s1 = s.update(i, e);
    assert forall|a: int, b: int| 0 <= a < b < s1.len() implies (#[trigger] s1[a]).0.id() != (
    #[trigger] s1[b]).0.id() by {
        assert(s[a].0.id() != s[b].0.id());
    }
    let m0 = seq_to_map(s);
    let m1 = seq_to_map(s1);
    assert forall|k: u64| #[trigger] m1.dom().contains(k) implies m0.insert(
        e.0.id(),
        e.1.meta(),
    ).dom().contains(k) by {
        let j = pairs_key_index(s1, k);
        if j != i {
            assert(s[j].0.id() == k);
            assert(pairs_cover(s, k));
        }
    }
    assert forall|k: u64| #[trigger] m0.insert(e.0.id(), e.1.meta()).dom().contains(k) implies
        m1.dom().contains(k) && m1[k] == m0.insert(e.0.id(), e.1.meta())[k] by {
        if k == e.0.id() {
            lemma_key_at_index(s1, i);
        } else {
            let j = pairs_key_index(s, k);
            assert(0 <= j < s.len() && s[j].0.id() == k);
            assert(j != i);
            assert(s1[j].0.id() == k);
            lemma_key_at_index(s1, j);
            lemma_key_at_index(s, j);
        }
    }
}

/// Appending an entry with a fresh key inserts it into the mapping.
proof fn lemma_push_map(s: Seq<(GraphIdentity, DspGraph)>, e: (GraphIdentity, DspGraph))
    requires
        pairs_keys_distinct(s),
        !pairs_cover(s, e.0.id()),
    ensures
        pairs_keys_distinct(s.push(e)),
        seq_to_map(s.push(e)) =~= seq_to_map(s).insert(e.0.id(), e.1.meta()),
{
    let s1 = s.push(e);
    assert forall|a: int, b: int| 0 <= a < b < s1.len() implies (#[trigger] s1[a]).0.id() != (
    #[trigger] s1[b]).0.id() by {
        if b < s.len() {
            assert(s[a].0.id() != s[b].0.id());
        } else {
            assert(s1[a] == s[a]);
            if s1[a].0.id() == e.0.id() {
                assert(pairs_cover(s, e.0.id()));
            }
        }
    }
    let m0 = seq_to_map(s);
    let m1 = seq_to_map(s1);
    assert forall|k: u64| #[trigger] m1.dom().contains(k) implies m0.insert(
        e.0.id(),
        e.1.meta(),
    ).dom().contains(k) by {
        let j = pairs_key_index(s1, k);
        if j < s.len() {
            assert(s[j].0.id() == k);
            assert(pairs_cover(s, k));
        }
    }
    assert forall|k: u64| #[trigger] m0.insert(e.0.id(), e.1.meta()).dom().contains(k) implies
        m1.dom().contains(k) && m1[k] == m0.insert(e.0.id(), e.1.meta())[k] by {
        if k == e.0.id() {
            lemma_key_at_index(s1, s.len() as int);
        } else {
            let j = pairs_key_index(s, k);
            assert(0 <= j < s.len() && s[j].0.id() == k);
            assert(s1[j].0.id() == k);
            lemma_key_at_index(s1, j);
            lemma_key_at_index(s, j);
        }
    }
}

/// Removing the entry at a key's index removes that key from the mapping.
proof fn lemma_remove_map(s: Seq<(GraphIdentity, DspGraph)>, i: int)
    requires
        pairs_keys_distinct(s),
        0 <= i < s.len(),
    ensures
        pairs_keys_distinct(s.remove(i)),
        seq_to_map(s.remove(i)) =~= seq_to_map(s).remove(s[i].0.id()),
{
    let s1 = s.remove(i);
    assert forall|a: int, b: int| 0 <= a < b < s1.len() implies (#[trigger] s1[a]).0.id() != (
    #[trigger] s1[b]).0.id() by {
        let a0 = if a < i { a } else { a + 1 };
        let b0 = if b < i { b } else { b + 1 };
        assert(s1[a] == s[a0] && s1[b] == s[b0]);
        assert(s[a0].0.id() != s[b0].0.id());
    }
    let m0 = seq_to_map(s);
    let m1 = seq_to_map(s1);
    assert forall|k: u64| #[trigger] m1.dom().contains(k) implies m0.remove(
        s[i].0.id(),
    ).dom().contains(k) by {
        let j = pairs_key_index(s1, k);
        let j0 = if j < i { j } else { j + 1 };
        assert(s1[j] == s[j0]);
        assert(s[j0].0.id() == k);
        assert(pairs_cover(s, k));
        lemma_key_at_index(s, j0);
        if j0 == i {
            assert(false);
        } else if j0 < i {
            assert(s[j0].0.id() != s[i].0.id());
        } else {
            assert(s[i].0.id() != s[j0].0.id());
        }
    }
    assert forall|k: u64| #[trigger] m0.remove(s[i].0.id()).dom().contains(k) implies
        m1.dom().contains(k) && m1[k] == m0.remove(s[i].0.id())[k] by {
        let j = pairs_key_index(s, k);
        assert(0 <= j < s.len() && s[j].0.id() == k);
        lemma_key_at_index(s, j);
        assert(j != i);
        let j1 = if j < i { j } else { j - 1 };
        assert(s1[j1] == s[j]);
        assert(pairs_cover(s1, k));
        lemma_key_at_index(s1, j1);
    }
}

} // verus!
