//! The approximate-frequency backend: storage, expiry and eviction are all
//! left to a `moka` cache made with one capacity and one lifetime.

use crate::backend::{BackendState, ContractStateCache, Entries};
use crate::config::max_lfu_ttl;
use crate::key::cache_key;
use crate::metrics::CacheMetrics;
use crate::moka_store::{
    moka_build, moka_get, moka_insert, moka_invalidate, moka_max_capacity, moka_resident,
    moka_time_to_live,
};
use crate::time::TimeSpan;
use vstd::prelude::*;

verus! {

/// The approximate-frequency backend as a value.
pub struct LfuState {
    /// The entries that the cache still has, each key with its value. Which
    /// of them a lookup finds is for the cache to decide.
    pub resident: Entries,
    /// The bound on the size of the cache.
    pub max_capacity: u64,
    /// The lifetime of every entry, in nanoseconds.
    pub ttl: nat,
    /// What the backend has counted.
    pub metrics: CacheMetrics,
}

impl LfuState {
    /// A backend that holds nothing and has counted nothing.
    pub open spec fn empty(max_capacity: u64, ttl: nat) -> LfuState {
        LfuState {
            resident: Entries::empty(),
            max_capacity,
            ttl,
            metrics: CacheMetrics::zeroed(),
        }
    }

    /// The settings are those of `before`.
    pub open spec fn built_like(self, before: LfuState) -> bool {
        self.max_capacity == before.max_capacity && self.ttl == before.ttl
    }

    /// The backend as the callers of any backend see it.
    pub open spec fn backend(self) -> BackendState {
        BackendState { entries: self.resident, metrics: self.metrics }
    }
}

/// The approximate-frequency backend.
pub struct MokaLfuCache {
    cache: moka::sync::Cache<String, String>,
    metrics: CacheMetrics,
}

impl View for MokaLfuCache {
    type V = LfuState;

    closed spec fn view(&self) -> LfuState {
        LfuState {
            resident: moka_resident(self.cache),
            max_capacity: moka_max_capacity(self.cache),
            ttl: moka_time_to_live(self.cache),
            metrics: self.metrics,
        }
    }
}

impl MokaLfuCache {
    /// An empty backend for about `capacity` entries, each of which lives
    /// `ttl`.
    pub fn new(capacity: u64, ttl: TimeSpan) -> (backend: MokaLfuCache)
        requires
            ttl@ <= max_lfu_ttl(),
        ensures
            backend@ == LfuState::empty(capacity, ttl@),
    {
        MokaLfuCache {
            cache: moka_build(capacity, ttl.as_secs(), ttl.subsec_nanos()),
            metrics: CacheMetrics::new(),
        }
    }
}

impl ContractStateCache for MokaLfuCache {
    open spec fn state(&self) -> BackendState {
        self@.backend()
    }

    open spec fn wf(&self) -> bool {
        true
    }

    /// Looks up `key` in the namespace `contract_id`. Whether a value that
    /// was stored is still found is for the cache to decide; what is found
    /// is counted as a hit, and nothing as a miss.
    fn get(&mut self, contract_id: &str, key: &str) -> (found: Option<String>)
        ensures
            final(self)@.built_like(old(self)@),
    {
        let composite = cache_key(contract_id, key);
        let result = moka_get(&mut self.cache, &composite);
        self.metrics.record_lookup(result.is_some());
        result
    }

    /// Stores `value` under `key` in the namespace `contract_id`. The entry
    /// lives as long as every entry of this backend: `ttl_override` is not
    /// looked at.
    fn put(&mut self, contract_id: &str, key: &str, value: String, ttl_override: Option<TimeSpan>)
        ensures
            final(self)@.built_like(old(self)@),
    {
        let composite = cache_key(contract_id, key);
        moka_insert(&mut self.cache, composite, value);
    }

    /// Removes the value of `key` in the namespace `contract_id`, if there
    /// is one.
    fn invalidate(&mut self, contract_id: &str, key: &str)
        ensures
            final(self)@.built_like(old(self)@),
    {
        let composite = cache_key(contract_id, key);
        moka_invalidate(&mut self.cache, &composite);
    }

    fn metrics(&self) -> (metrics: &CacheMetrics)
        ensures
            *metrics == self@.metrics,
    {
        &self.metrics
    }

    fn metrics_mut(&mut self) -> (metrics: &mut CacheMetrics)
        ensures
            final(self)@ == (LfuState { metrics: *final(metrics), ..old(self)@ }),
    {
        &mut self.metrics
    }
}

} // verus!
