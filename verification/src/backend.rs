//! What every eviction backend offers, and what it owes to its callers.

use crate::key::composite_key;
use crate::metrics::CacheMetrics;
use crate::time::TimeSpan;
use vstd::prelude::*;

verus! {

/// Values by their composite keys.
pub type Entries = Map<Seq<char>, Seq<char>>;

/// A backend as its callers see it.
pub struct BackendState {
    /// Under each composite key, the value that a lookup of it may still
    /// return. A backend may have dropped any of them.
    pub entries: Entries,
    /// What the backend has counted.
    pub metrics: CacheMetrics,
}

/// The characters of a value that was found, if one was.
pub open spec fn text(value: Option<String>) -> Option<Seq<char>> {
    match value {
        Some(s) => Some(s@),
        None => None,
    }
}

impl BackendState {
    /// A lookup of `key` in this state returned `found` and left `after`: a
    /// value that is found is the one held under the key, nothing is added,
    /// and the lookup is counted once, as a hit if it found a value and as a
    /// miss if not.
    pub open spec fn looked_up(
        self,
        key: Seq<char>,
        found: Option<Seq<char>>,
        after: BackendState,
    ) -> bool {
        &&& found matches Some(value) ==> self.entries.contains_key(key) && self.entries[key]
            == value
        &&& after.entries.submap_of(self.entries)
        &&& after.metrics == self.metrics.with_lookup(found is Some)
    }

    /// Storing `value` under `key` in this state left `after`: the key can
    /// give no other value than `value`, nothing else is added, and nothing
    /// is counted.
    pub open spec fn stored(self, key: Seq<char>, value: Seq<char>, after: BackendState) -> bool {
        &&& after.entries.submap_of(self.entries.insert(key, value))
        &&& after.metrics == self.metrics
    }

    /// Invalidating `key` in this state left `after`: the key gives no value
    /// any more, nothing is added, and nothing is counted.
    pub open spec fn invalidated(self, key: Seq<char>, after: BackendState) -> bool {
        &&& after.entries.submap_of(self.entries.remove(key))
        &&& after.metrics == self.metrics
    }
}

/// What a map holds under a key, every map that includes it holds too.
pub proof fn lemma_held_in_larger(smaller: Entries, larger: Entries, key: Seq<char>)
    requires
        smaller.submap_of(larger),
        smaller.contains_key(key),
    ensures
        larger.contains_key(key),
        larger[key] == smaller[key],
{
    // Naming the key on both sides applies the inclusion to it.
    assert(smaller.dom().contains(key));
    assert(larger.dom().contains(key) || !larger.dom().contains(key));
}

/// A cache of contract state: values stored under a namespace
/// (`contract_id`) and a key.
pub trait ContractStateCache: Send + Sync {
    /// The backend as its callers see it.
    spec fn state(&self) -> BackendState;

    /// What holds of the backend between calls. The counters have no part
    /// in it.
    spec fn wf(&self) -> bool;

    /// Looks up the value of `key` in the namespace `contract_id`, and counts
    /// the lookup as a hit or as a miss.
    fn get(&mut self, contract_id: &str, key: &str) -> (found: Option<String>)
        requires
            old(self).wf(),
        ensures
            final(self).wf(),
            old(self).state().looked_up(
                composite_key(contract_id@, key@),
                text(found),
                final(self).state(),
            ),
    ;

    /// Stores `value` under `key` in the namespace `contract_id`.
    /// `ttl_override` asks for a lifetime other than the backend's own.
    fn put(&mut self, contract_id: &str, key: &str, value: String, ttl_override: Option<TimeSpan>)
        requires
            old(self).wf(),
        ensures
            final(self).wf(),
            old(self).state().stored(
                composite_key(contract_id@, key@),
                value@,
                final(self).state(),
            ),
    ;

    /// Removes the value of `key` in the namespace `contract_id`, if there
    /// is one.
    fn invalidate(&mut self, contract_id: &str, key: &str)
        requires
            old(self).wf(),
        ensures
            final(self).wf(),
            old(self).state().invalidated(composite_key(contract_id@, key@), final(self).state()),
    ;

    /// The counters of this backend.
    fn metrics(&self) -> (metrics: &CacheMetrics)
        ensures
            *metrics == self.state().metrics,
    ;

    /// The counters of this backend, for a caller that adds to them. The
    /// entries do not depend on them.
    fn metrics_mut(&mut self) -> (metrics: &mut CacheMetrics)
        requires
            old(self).wf(),
        ensures
            final(self).wf(),
            *metrics == old(self).state().metrics,
            final(self).state() == (BackendState {
                metrics: *final(metrics),
                ..old(self).state()
            }),
    ;
}

} // verus!
