//! The asset handle table produced by a bulk render pass.
//!
//! After the registry's bulk render, the host's asset store has issued one
//! opaque handle per registered identity; this table maps each identity to
//! its handle, read-only, and is replaced wholesale by the next pass.

use vstd::prelude::*;

use crate::GraphIdentity;
use crate::{pairs_cover, pairs_key_index, pairs_keys_distinct};

verus! {

broadcast use vstd::std_specs::vec::group_vec_axioms;

/// The mapping a pair sequence stands for.
pub open spec fn pairs_to_map<H>(s: Seq<(GraphIdentity, H)>) -> Map<u64, H> {
    Map::new(|k: u64| pairs_cover(s, k), |k: u64| s[pairs_key_index(s, k)].1)
}

/// With distinct keys, the pair at index `i` is the one its key maps to.
pub proof fn lemma_pair_at_index<H>(s: Seq<(GraphIdentity, H)>, i: int)
    requires
        pairs_keys_distinct(s),
        0 <= i < s.len(),
    ensures
        pairs_cover(s, s[i].0.id()),
        pairs_key_index(s, s[i].0.id()) == i,
        pairs_to_map(s).dom().contains(s[i].0.id()),
        pairs_to_map(s)[s[i].0.id()] == s[i].1,
{
    let k = s[i].0.id();
    assert(pairs_cover(s, k));
    let j = pairs_key_index(s, k);
    assert(0 <= j < s.len() && s[j].0.id() == k);
    if i < j {
        assert(s[i].0.id() != s[j].0.id());
    } else if j < i {
        assert(s[j].0.id() != s[i].0.id());
    }
}

/// The handle table of one bulk render pass: a read-only mapping from each
/// rendered identity to the opaque handle the host's asset store issued
/// for its sound.
pub struct DspAssets<H> {
    handles: Vec<(GraphIdentity, H)>,
}

impl<H> View for DspAssets<H> {
    type V = Map<u64, H>;

    open spec fn view(&self) -> Map<u64, H> {
        pairs_to_map(self.entries())
    }
}

impl<H> DspAssets<H> {
    /// The identity-to-handle pairs, in storage order.
    pub closed spec fn entries(&self) -> Seq<(GraphIdentity, H)> {
        self.handles@
    }

    /// Keys are pairwise distinct.
    pub open spec fn wf(&self) -> bool {
        pairs_keys_distinct(self.entries())
    }

    /// Build the table of one bulk render pass from the issued handles,
    /// one per rendered identity.
    pub fn new(handles: Vec<(GraphIdentity, H)>) -> (r: Self)
        requires
            pairs_keys_distinct(handles@),
        ensures
            r.wf(),
            r@ == pairs_to_map(handles@),
    {
        DspAssets { handles }
    }

    /// Find the storage index of `id`, if present.
    fn find_index(&self, id: GraphIdentity) -> (r: Option<usize>)
        ensures
            match r {
                Some(i) => i < self.entries().len() && self.entries()[i as int].0 == id,
                None => !pairs_cover(self.entries(), id.id()),
            },
    {
        let n = self.handles.len();
        let mut j: usize = 0;
        while j < n
            invariant
                n == self.entries().len(),
                j <= n,
                forall|i: int| 0 <= i < j ==> (#[trigger] self.entries()[i]).0.id() != id.id(),
            decreases n - j,
        {
            if self.handles[j].0.0 == id.0 {
                assert(self.entries()[j as int].0 == id);
                return Some(j);
            }
            j = j + 1;
        }
        None
    }

    /// Get the handle issued for `id`.  Absence is an ordinary outcome,
    /// not an error.
    pub fn get_graph(&self, id: GraphIdentity) -> (r: Option<&H>)
        requires
            self.wf(),
        ensures
            match r {
                Some(h) => self@.dom().contains(id.id()) && *h == self@[id.id()],
                None => !self@.dom().contains(id.id()),
            },
    {
        match self.find_index(id) {
            Some(i) => {
                proof {
                    lemma_pair_at_index(self.entries(), i as int);
                }
                Some(&self.handles[i].1)
            },
            None => None,
        }
    }

    /// Get the handle issued for `id`, for call sites that know the asset
    /// was registered before the bulk render pass ran.  Identities never
    /// rendered are excluded by contract.
    pub fn graph(&self, id: GraphIdentity) -> (r: &H)
        requires
            self.wf(),
            self@.dom().contains(id.id()),
        ensures
            *r == self@[id.id()],
    {
        match self.get_graph(id) {
            Some(h) => h,
            None => vstd::pervasive::unreached(),
        }
    }
}

/// A bulk render pass covers the registry exactly: a handle table built
/// from pairs that carry precisely the registered identities answers those
/// identities and no other.
pub proof fn lemma_table_covers_exactly<H>(pairs: Seq<(GraphIdentity, H)>, keys: Set<u64>)
    requires
        forall|i: int| 0 <= i < pairs.len() ==> keys.contains((#[trigger] pairs[i]).0.id()),
        forall|k: u64| #[trigger] keys.contains(k) ==> pairs_cover(pairs, k),
    ensures
        pairs_to_map(pairs).dom() =~= keys,
{
    assert forall|k: u64| pairs_to_map(pairs).dom().contains(k) implies keys.contains(k) by {
        let i = pairs_key_index(pairs, k);
        assert(0 <= i < pairs.len() && pairs[i].0.id() == k);
    }
}

} // verus!
