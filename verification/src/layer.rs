//! The cache layer: one backend, chosen once by the policy, behind a switch
//! that turns caching off, with the latency of served lookups measured.

use crate::backend::{text, BackendState, ContractStateCache};
use crate::clock::elapsed_since;
use crate::config::{CacheConfig, EvictionPolicy};
use crate::key::composite_key;
use crate::lfu_backend::{LfuState, MokaLfuCache};
use crate::lru_backend::{
    lemma_get_is_lookup, lemma_invalidate_is_invalidation, lemma_put_is_store, span, LruCacheImpl,
    LruState,
};
use crate::metrics::CacheMetrics;
use crate::time::TimeSpan;
use std::time::Instant;
use vstd::prelude::*;

verus! {

/// The backend of a layer as a value: one of the two kinds.
pub enum StoreState {
    /// The approximate-frequency backend.
    Lfu(LfuState),
    /// The exact-recency backend.
    Lru(LruState),
}

impl StoreState {
    /// What holds of the backend between calls.
    pub open spec fn wf(self) -> bool {
        match self {
            StoreState::Lfu(_) => true,
            StoreState::Lru(state) => state.wf(),
        }
    }

    /// The backend as the callers of any backend see it.
    pub open spec fn backend(self) -> BackendState {
        match self {
            StoreState::Lfu(state) => state.backend(),
            StoreState::Lru(state) => state.backend(),
        }
    }

    /// What the backend has counted.
    pub open spec fn metrics(self) -> CacheMetrics {
        match self {
            StoreState::Lfu(state) => state.metrics,
            StoreState::Lru(state) => state.metrics,
        }
    }

    /// The same backend with the counters `metrics`.
    pub open spec fn with_metrics(self, metrics: CacheMetrics) -> StoreState {
        match self {
            StoreState::Lfu(state) => StoreState::Lfu(LfuState { metrics, ..state }),
            StoreState::Lru(state) => StoreState::Lru(LruState { metrics, ..state }),
        }
    }

    /// A lookup of `key` returned `found` and left `after`. The
    /// exact-recency backend did what it does at some time `now` of its
    /// clock. The approximate-frequency backend found the value held under
    /// the key or nothing, added no entry, and counted the lookup.
    pub open spec fn looked_up(self, key: Seq<char>, found: Option<Seq<char>>, after: StoreState) -> bool {
        match self {
            StoreState::Lfu(before) => {
                &&& after matches StoreState::Lfu(state)
                &&& state.built_like(before)
                &&& before.backend().looked_up(key, found, state.backend())
            },
            StoreState::Lru(before) => exists|now: nat|
                found == before.value_at(key, now) && after == StoreState::Lru(
                    #[trigger] before.after_get(key, now),
                ),
        }
    }

    /// Storing `value` under `key` with the lifetime `ttl_override` left
    /// `after`. The exact-recency backend did what it does at some time
    /// `now` of its clock. The approximate-frequency backend took the entry,
    /// whatever lifetime was asked for, and added no other.
    pub open spec fn stored(
        self,
        key: Seq<char>,
        value: Seq<char>,
        ttl_override: Option<nat>,
        after: StoreState,
    ) -> bool {
        match self {
            StoreState::Lfu(before) => {
                &&& after matches StoreState::Lfu(state)
                &&& state.built_like(before)
                &&& before.backend().stored(key, value, state.backend())
            },
            StoreState::Lru(before) => exists|now: nat|
                after == StoreState::Lru(
                    #[trigger] before.after_put(key, value, ttl_override, now),
                ),
        }
    }

    /// Invalidating `key` left `after`.
    pub open spec fn invalidated(self, key: Seq<char>, after: StoreState) -> bool {
        match self {
            StoreState::Lfu(before) => {
                &&& after matches StoreState::Lfu(state)
                &&& state.built_like(before)
                &&& before.backend().invalidated(key, state.backend())
            },
            StoreState::Lru(before) => after == StoreState::Lru(before.after_invalidate(key)),
        }
    }

    /// The backend after a lookup that found `found`, served in `elapsed`
    /// nanoseconds: the latency is added to the counters if a value was
    /// found, and not otherwise.
    pub open spec fn timed(self, found: Option<Seq<char>>, elapsed: nat) -> StoreState {
        if found is Some {
            self.with_metrics(self.metrics().with_cached_latency(elapsed))
        } else {
            self
        }
    }
}

/// A lookup in either backend keeps it well formed and is a lookup as every
/// backend owes it.
pub proof fn lemma_lookup_in_store(
    before: StoreState,
    key: Seq<char>,
    found: Option<Seq<char>>,
    after: StoreState,
)
    requires
        before.wf(),
        before.looked_up(key, found, after),
    ensures
        after.wf(),
        before.backend().looked_up(key, found, after.backend()),
{
    if let StoreState::Lru(state) = before {
        let now = choose|now: nat|
            found == state.value_at(key, now) && after == StoreState::Lru(
                #[trigger] state.after_get(key, now),
            );
        lemma_get_is_lookup(state, key, now);
    }
}

/// Storing in either backend keeps it well formed and is a store as every
/// backend owes it.
pub proof fn lemma_store_in_store(
    before: StoreState,
    key: Seq<char>,
    value: Seq<char>,
    ttl_override: Option<nat>,
    after: StoreState,
)
    requires
        before.wf(),
        before.stored(key, value, ttl_override, after),
    ensures
        after.wf(),
        before.backend().stored(key, value, after.backend()),
{
    if let StoreState::Lru(state) = before {
        let now = choose|now: nat|
            after == StoreState::Lru(#[trigger] state.after_put(key, value, ttl_override, now));
        lemma_put_is_store(state, key, value, ttl_override, now);
    }
}

/// Invalidating in either backend keeps it well formed and is an
/// invalidation as every backend owes it.
pub proof fn lemma_invalidate_in_store(before: StoreState, key: Seq<char>, after: StoreState)
    requires
        before.wf(),
        before.invalidated(key, after),
    ensures
        after.wf(),
        before.backend().invalidated(key, after.backend()),
{
    if let StoreState::Lru(state) = before {
        lemma_invalidate_is_invalidation(state, key);
    }
}

/// The backend of a layer.
pub enum Backend {
    /// The approximate-frequency backend.
    Lfu(MokaLfuCache),
    /// The exact-recency backend.
    Lru(LruCacheImpl),
}

impl View for Backend {
    type V = StoreState;

    open spec fn view(&self) -> StoreState {
        match self {
            Backend::Lfu(backend) => StoreState::Lfu(backend@),
            Backend::Lru(backend) => StoreState::Lru(backend@),
        }
    }
}

impl ContractStateCache for Backend {
    open spec fn state(&self) -> BackendState {
        self@.backend()
    }

    open spec fn wf(&self) -> bool {
        self@.wf()
    }

    fn get(&mut self, contract_id: &str, key: &str) -> (found: Option<String>)
        ensures
            old(self)@.looked_up(composite_key(contract_id@, key@), text(found), final(self)@),
    {
        match self {
            Backend::Lfu(backend) => backend.get(contract_id, key),
            Backend::Lru(backend) => backend.get(contract_id, key),
        }
    }

    fn put(&mut self, contract_id: &str, key: &str, value: String, ttl_override: Option<TimeSpan>)
        ensures
            old(self)@.stored(
                composite_key(contract_id@, key@),
                value@,
                span(ttl_override),
                final(self)@,
            ),
    {
        match self {
            Backend::Lfu(backend) => backend.put(contract_id, key, value, ttl_override),
            Backend::Lru(backend) => backend.put(contract_id, key, value, ttl_override),
        }
    }

    fn invalidate(&mut self, contract_id: &str, key: &str)
        ensures
            old(self)@.invalidated(composite_key(contract_id@, key@), final(self)@),
    {
        match self {
            Backend::Lfu(backend) => backend.invalidate(contract_id, key),
            Backend::Lru(backend) => backend.invalidate(contract_id, key),
        }
    }

    fn metrics(&self) -> (metrics: &CacheMetrics)
        ensures
            *metrics == self@.metrics(),
    {
        match self {
            Backend::Lfu(backend) => backend.metrics(),
            Backend::Lru(backend) => backend.metrics(),
        }
    }

    fn metrics_mut(&mut self) -> (metrics: &mut CacheMetrics)
        ensures
            final(self)@ == old(self)@.with_metrics(*final(metrics)),
    {
        match self {
            Backend::Lfu(backend) => backend.metrics_mut(),
            Backend::Lru(backend) => backend.metrics_mut(),
        }
    }
}

/// A cache layer as a value: its settings and its backend.
pub struct LayerState {
    /// The settings the layer was made with.
    pub config: CacheConfig,
    /// The backend.
    pub store: StoreState,
}

impl LayerState {
    /// The layer as it is made from `config`: the backend that the policy
    /// names, empty, with nothing counted.
    pub open spec fn initial(config: CacheConfig) -> LayerState {
        LayerState {
            config,
            store: match config.policy {
                EvictionPolicy::Lfu => StoreState::Lfu(
                    LfuState::empty(config.max_capacity, config.global_ttl@),
                ),
                EvictionPolicy::Lru => StoreState::Lru(
                    LruState::empty(config.max_capacity as nat, config.global_ttl@),
                ),
            },
        }
    }

    /// The backend is the one that the policy names, and is well formed.
    pub open spec fn wf(self) -> bool {
        &&& self.store.wf()
        &&& self.config.policy == EvictionPolicy::Lfu <==> self.store is Lfu
    }

    /// What the layer has counted.
    pub open spec fn metrics(self) -> CacheMetrics {
        self.store.metrics()
    }

    /// A lookup of `key` returned `found` and left `after`. A layer that is
    /// switched off finds nothing and stays as it is. Otherwise the backend
    /// is asked, and the time the answer took is added to the counters if a
    /// value was found.
    pub open spec fn looked_up(self, key: Seq<char>, found: Option<Seq<char>>, after: LayerState) -> bool {
        if !self.config.enabled {
            found is None && after == self
        } else {
            &&& after.config == self.config
            &&& exists|served: StoreState, elapsed: nat|
                self.store.looked_up(key, found, served) && after.store == #[trigger] served.timed(
                    found,
                    elapsed,
                )
        }
    }

    /// Storing `value` under `key` with the lifetime `ttl_override` left
    /// `after`. A layer that is switched off stays as it is.
    pub open spec fn stored(
        self,
        key: Seq<char>,
        value: Seq<char>,
        ttl_override: Option<nat>,
        after: LayerState,
    ) -> bool {
        if !self.config.enabled {
            after == self
        } else {
            &&& after.config == self.config
            &&& self.store.stored(key, value, ttl_override, after.store)
        }
    }

    /// Invalidating `key` left `after`. A layer that is switched off stays
    /// as it is.
    pub open spec fn invalidated(self, key: Seq<char>, after: LayerState) -> bool {
        if !self.config.enabled {
            after == self
        } else {
            &&& after.config == self.config
            &&& self.store.invalidated(key, after.store)
        }
    }

    /// The layer after the caller reported a computation without the cache
    /// that took `nanos` nanoseconds.
    pub open spec fn with_uncached_latency(self, nanos: nat) -> LayerState {
        LayerState {
            store: self.store.with_metrics(self.metrics().with_uncached_latency(nanos)),
            ..self
        }
    }
}

/// The cache layer.
pub struct CacheLayer {
    backend: Backend,
    config: CacheConfig,
}

impl View for CacheLayer {
    type V = LayerState;

    closed spec fn view(&self) -> LayerState {
        LayerState { config: self.config, store: self.backend@ }
    }
}

impl CacheLayer {
    /// Makes the layer that `config` describes, with the backend that its
    /// policy names.
    pub fn new(config: CacheConfig) -> (layer: CacheLayer)
        requires
            config.valid(),
        ensures
            layer@ == LayerState::initial(config),
            layer@.wf(),
    {
        let backend = match config.policy {
            EvictionPolicy::Lfu => Backend::Lfu(
                MokaLfuCache::new(config.max_capacity, config.global_ttl),
            ),
            EvictionPolicy::Lru => Backend::Lru(
                LruCacheImpl::new(config.max_capacity, config.global_ttl),
            ),
        };
        CacheLayer { backend, config }
    }

    /// The settings the layer was made with.
    pub fn config(&self) -> (config: &CacheConfig)
        ensures
            *config == self@.config,
    {
        &self.config
    }

    /// Looks up the value of `key` in the namespace `contract_id`.
    pub fn get(&mut self, contract_id: &str, key: &str) -> (found: Option<String>)
        requires
            old(self)@.wf(),
        ensures
            final(self)@.wf(),
            old(self)@.looked_up(composite_key(contract_id@, key@), text(found), final(self)@),
    {
        if !self.config.enabled {
            return None;
        }
        let start = Instant::now();
        let res = self.backend.get(contract_id, key);
        let ghost served = self.backend@;
        let ghost mut elapsed: nat = 0;
        if res.is_some() {
            let latency = elapsed_since(&start);
            proof {
                elapsed = latency@;
            }
            self.backend.metrics_mut().record_cached_latency(latency);
        }
        assert(self@.store == served.timed(text(res), elapsed));
        res
    }

    /// Stores `value` under `key` in the namespace `contract_id`.
    /// `ttl_override` asks for a lifetime other than the layer's own; only
    /// the exact-recency backend heeds it.
    pub fn put(&mut self, contract_id: &str, key: &str, value: String, ttl_override: Option<TimeSpan>)
        requires
            old(self)@.wf(),
        ensures
            final(self)@.wf(),
            old(self)@.stored(
                composite_key(contract_id@, key@),
                value@,
                span(ttl_override),
                final(self)@,
            ),
    {
        if !self.config.enabled {
            return ;
        }
        self.backend.put(contract_id, key, value, ttl_override);
    }

    /// Removes the value of `key` in the namespace `contract_id`, if there
    /// is one.
    pub fn invalidate(&mut self, contract_id: &str, key: &str)
        requires
            old(self)@.wf(),
        ensures
            final(self)@.wf(),
            old(self)@.invalidated(composite_key(contract_id@, key@), final(self)@),
    {
        if !self.config.enabled {
            return ;
        }
        self.backend.invalidate(contract_id, key);
    }

    /// The counters of the layer.
    pub fn metrics(&self) -> (metrics: &CacheMetrics)
        ensures
            *metrics == self@.metrics(),
    {
        self.backend.metrics()
    }

    /// Adds the latency of a computation that the caller made without the
    /// cache, whether the layer is switched on or off.
    pub fn record_uncached_latency(&mut self, duration: TimeSpan)
        requires
            old(self)@.wf(),
        ensures
            final(self)@.wf(),
            final(self)@ == old(self)@.with_uncached_latency(duration@),
    {
        self.backend.metrics_mut().record_uncached_latency(duration);
    }
}

} // verus!
