//! A registry and asset-generation bridge for procedurally defined DSP
//! graphs.
//!
//! Calling code registers graph factories under stable identity keys,
//! then has every registered graph rendered to a fixed-length waveform in
//! one bulk pass; each waveform is decoded into playable sound data and
//! exposed through a handle table keyed by the same identities.

pub mod assets;
pub mod dsp;
pub mod manager;
pub mod wav;

use vstd::prelude::*;

verus! {

/// A stable identity key for a registered graph factory.
///
/// Each distinct factory definition is given its own tag by the caller;
/// the tag stands for the factory's identity at registration and lookup
/// time, so one factory definition means one logical sound effect.
#[derive(Clone, Copy, PartialEq, Eq, Hash, Debug, Structural)]
pub struct GraphIdentity(pub u64);

impl GraphIdentity {
    /// The numeric tag this identity carries.
    pub open spec fn id(self) -> u64 {
        self.0
    }

    /// Wrap a caller-chosen tag as an identity key.
    pub fn new(tag: u64) -> (r: GraphIdentity)
        ensures
            r.id() == tag,
    {
        GraphIdentity(tag)
    }
}

/// Distinct factory definitions never collide: identities derived from
/// different tags differ, whatever the graphs they build behave like.
pub proof fn lemma_distinct_tags_distinct_identities(a: u64, b: u64)
    requires
        a != b,
    ensures
        GraphIdentity(a) != GraphIdentity(b),
{
}

/// Whether some pair of `v` carries the key `k`.
pub open spec fn pairs_cover<T>(v: Seq<(GraphIdentity, T)>, k: u64) -> bool {
    exists|i: int| 0 <= i < v.len() && (#[trigger] v[i]).0.id() == k
}

/// The index of the pair of `v` carrying the key `k`.
pub open spec fn pairs_key_index<T>(v: Seq<(GraphIdentity, T)>, k: u64) -> int {
    choose|i: int| 0 <= i < v.len() && (#[trigger] v[i]).0.id() == k
}

/// Whether the keys of `v` are pairwise distinct.
pub open spec fn pairs_keys_distinct<T>(v: Seq<(GraphIdentity, T)>) -> bool {
    forall|i: int, j: int|
        0 <= i < j < v.len() ==> (#[trigger] v[i]).0.id() != (#[trigger] v[j]).0.id()
}

/// A factory of DSP graphs: a stored, repeatable recipe that produces a
/// fresh, independently owned graph network on every call.
pub trait FnDspGraph: Send + Sync {
    /// Build a fresh graph network.
    fn generate_graph(&self) -> fundsp::net::Net32;
}

} // verus!
