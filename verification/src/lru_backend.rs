//! The exact-recency backend: a bounded store in strict order of use, each
//! entry with its own time of expiry, checked when the entry is looked up.

use crate::backend::{text, BackendState, ContractStateCache, Entries};
use crate::clock::elapsed_since;
use crate::key::{cache_key, composite_key};
use crate::lru_store::{lru_capacity, lru_get, lru_pop, lru_put, lru_slots, lru_sparse};
use crate::metrics::CacheMetrics;
use crate::slots::{
    distinct_keys, holds, lemma_after_put, lemma_found_in_place, lemma_promoted, lemma_removed,
    lemma_without, lookup, promoted, slot_of, slots_after_put, slots_without, Slot,
};
use crate::time::TimeSpan;
use std::time::Instant;
use vstd::prelude::*;

verus! {

/// The exact-recency backend as a value: its entries in order of use, the
/// most recently used first, and its settings and counters.
pub struct LruState {
    /// The entries, the most recently used first.
    pub slots: Seq<Slot>,
    /// The number of entries held at most.
    pub capacity: nat,
    /// The lifetime of an entry that is stored without one of its own, in
    /// nanoseconds.
    pub default_ttl: nat,
    /// What the backend has counted.
    pub metrics: CacheMetrics,
}

/// The length of a lifetime that was asked for, in nanoseconds.
pub open spec fn span(ttl_override: Option<TimeSpan>) -> Option<nat> {
    match ttl_override {
        Some(ttl) => Some(ttl@),
        None => None,
    }
}

impl LruState {
    /// A backend that holds nothing and has counted nothing.
    pub open spec fn empty(capacity: nat, default_ttl: nat) -> LruState {
        LruState {
            slots: Seq::empty(),
            capacity,
            default_ttl,
            metrics: CacheMetrics::zeroed(),
        }
    }

    /// No key is held twice, and no more entries are held than the capacity,
    /// which is not zero.
    pub open spec fn wf(self) -> bool {
        &&& distinct_keys(self.slots)
        &&& self.slots.len() <= self.capacity
        &&& self.capacity > 0
    }

    /// The value held under each key, expired or not.
    pub open spec fn entries(self) -> Entries {
        Map::new(
            |key: Seq<char>| holds(self.slots, key),
            |key: Seq<char>| self.slots[slot_of(self.slots, key)].1,
        )
    }

    /// The backend as the callers of any backend see it.
    pub open spec fn backend(self) -> BackendState {
        BackendState { entries: self.entries(), metrics: self.metrics }
    }

    /// What a lookup of `key` at the time `now` returns: the value held
    /// under the key, if there is one and it expires after `now`.
    pub open spec fn value_at(self, key: Seq<char>, now: nat) -> Option<Seq<char>> {
        match lookup(self.slots, key) {
            Some(slot) => if slot.2 > now {
                Some(slot.1)
            } else {
                None
            },
            None => None,
        }
    }

    /// The backend after a lookup of `key` at the time `now`. A live entry
    /// becomes the most recently used and a hit is counted. An expired entry
    /// is removed and a miss is counted. With no entry a miss is counted.
    pub open spec fn after_get(self, key: Seq<char>, now: nat) -> LruState {
        if !holds(self.slots, key) {
            LruState { metrics: self.metrics.with_miss(), ..self }
        } else if self.slots[slot_of(self.slots, key)].2 > now {
            LruState {
                slots: promoted(self.slots, slot_of(self.slots, key)),
                metrics: self.metrics.with_hit(),
                ..self
            }
        } else {
            LruState {
                slots: self.slots.remove(slot_of(self.slots, key)),
                metrics: self.metrics.with_miss(),
                ..self
            }
        }
    }

    /// The lifetime of an entry stored with `ttl_override`: the override if
    /// there is one, else the backend's own.
    pub open spec fn lifetime(self, ttl_override: Option<nat>) -> nat {
        match ttl_override {
            Some(ttl) => ttl,
            None => self.default_ttl,
        }
    }

    /// The backend after `value` was stored under `key` at the time `now`:
    /// the entry expires one lifetime after `now` and is the most recently
    /// used; it replaces an entry of the same key, or else, in a full
    /// backend, the least recently used entry leaves.
    pub open spec fn after_put(
        self,
        key: Seq<char>,
        value: Seq<char>,
        ttl_override: Option<nat>,
        now: nat,
    ) -> LruState {
        LruState {
            slots: slots_after_put(
                self.slots,
                self.capacity,
                (key, value, now + self.lifetime(ttl_override)),
            ),
            ..self
        }
    }

    /// The backend after `key` was invalidated: its entry is removed, if
    /// there was one.
    pub open spec fn after_invalidate(self, key: Seq<char>) -> LruState {
        LruState { slots: slots_without(self.slots, key), ..self }
    }
}

/// A lookup keeps the backend well formed, and is a lookup as every backend
/// owes it.
pub proof fn lemma_get_is_lookup(state: LruState, key: Seq<char>, now: nat)
    requires
        state.wf(),
    ensures
        state.after_get(key, now).wf(),
        state.backend().looked_up(
            key,
            state.value_at(key, now),
            state.after_get(key, now).backend(),
        ),
{
    if holds(state.slots, key) {
        let i = slot_of(state.slots, key);
        lemma_promoted(state.slots, i);
        lemma_removed(state.slots, i);
    }
    let before = state.backend().entries;
    let after = state.after_get(key, now).backend().entries;
    assert forall|k: Seq<char>| #[trigger] after.contains_key(k) implies before.contains_key(k)
        && after[k] == before[k] by {
        assert(lookup(state.after_get(key, now).slots, k) is Some);
    }
}

/// Storing keeps the backend well formed, and is a store as every backend
/// owes it.
pub proof fn lemma_put_is_store(
    state: LruState,
    key: Seq<char>,
    value: Seq<char>,
    ttl_override: Option<nat>,
    now: nat,
)
    requires
        state.wf(),
    ensures
        state.after_put(key, value, ttl_override, now).wf(),
        state.backend().stored(
            key,
            value,
            state.after_put(key, value, ttl_override, now).backend(),
        ),
{
    let slot = (key, value, now + state.lifetime(ttl_override));
    lemma_after_put(state.slots, state.capacity, slot);
    let before = state.backend().entries.insert(key, value);
    let after_state = state.after_put(key, value, ttl_override, now);
    let after = after_state.backend().entries;
    assert forall|k: Seq<char>| #[trigger] after.contains_key(k) implies before.contains_key(k)
        && after[k] == before[k] by {
        assert(lookup(after_state.slots, k) is Some);
        if k != key {
            assert(lookup(state.slots, k) is Some);
        }
    }
}

/// Invalidating keeps the backend well formed, and is an invalidation as
/// every backend owes it.
pub proof fn lemma_invalidate_is_invalidation(state: LruState, key: Seq<char>)
    requires
        state.wf(),
    ensures
        state.after_invalidate(key).wf(),
        state.backend().invalidated(key, state.after_invalidate(key).backend()),
{
    lemma_without(state.slots, key);
    let before = state.backend().entries.remove(key);
    let after_state = state.after_invalidate(key);
    let after = after_state.backend().entries;
    assert forall|k: Seq<char>| #[trigger] after.contains_key(k) implies before.contains_key(k)
        && after[k] == before[k] by {
        assert(lookup(after_state.slots, k) is Some);
        if k != key {
            assert(lookup(state.slots, k) is Some);
        }
    }
}

/// The exact-recency backend. Times of expiry are counted in nanoseconds
/// from the moment the backend was made.
pub struct LruCacheImpl {
    cache: lru::LruCache<String, (String, u128)>,
    metrics: CacheMetrics,
    default_ttl: TimeSpan,
    origin: Instant,
}

impl View for LruCacheImpl {
    type V = LruState;

    closed spec fn view(&self) -> LruState {
        LruState {
            slots: lru_slots(self.cache),
            capacity: lru_capacity(self.cache),
            default_ttl: self.default_ttl@,
            metrics: self.metrics,
        }
    }
}

impl LruCacheImpl {
    /// An empty backend for at most `capacity` entries, which live `ttl`
    /// where no other lifetime is given.
    pub fn new(capacity: u64, ttl: TimeSpan) -> (backend: LruCacheImpl)
        requires
            0 < capacity <= usize::MAX,
        ensures
            backend@ == LruState::empty(capacity as nat, ttl@),
            backend@.wf(),
    {
        LruCacheImpl {
            cache: lru_sparse(capacity as usize),
            metrics: CacheMetrics::new(),
            default_ttl: ttl,
            origin: Instant::now(),
        }
    }

    /// The time on this backend's clock: what has passed since it was made.
    pub fn now(&self) -> (now: TimeSpan) {
        elapsed_since(&self.origin)
    }

    /// Looks up `key` in the namespace `contract_id` as of the time `now`.
    pub fn get_at(&mut self, contract_id: &str, key: &str, now: TimeSpan) -> (found: Option<String>)
        requires
            old(self)@.wf(),
        ensures
            text(found) == old(self)@.value_at(composite_key(contract_id@, key@), now@),
            final(self)@ == old(self)@.after_get(composite_key(contract_id@, key@), now@),
            final(self)@.wf(),
    {
        let composite = cache_key(contract_id, key);
        let now_nanos = now.as_nanos();
        proof {
            lemma_get_is_lookup(self@, composite@, now@);
            if holds(self@.slots, composite@) {
                // Once looked up, the entry is the first one: removing the
                // entry of its key then leaves the others as they were.
                let i = slot_of(self@.slots, composite@);
                lemma_promoted(self@.slots, i);
                lemma_found_in_place(promoted(self@.slots, i), 0);
            }
        }
        match lru_get(&mut self.cache, &composite) {
            Some(entry) => {
                if entry.1 > now_nanos {
                    self.metrics.record_hit();
                    return Some(entry.0);
                }
                // Expired
                lru_pop(&mut self.cache, &composite);
                assert(self@.slots =~= old(self)@.slots.remove(
                    slot_of(old(self)@.slots, composite@),
                ));
            },
            None => {},
        }
        self.metrics.record_miss();
        None
    }

    /// Stores `value` under `key` in the namespace `contract_id` at the time
    /// `now`, to live `ttl_override` or, without one, the backend's own
    /// lifetime.
    pub fn put_at(
        &mut self,
        contract_id: &str,
        key: &str,
        value: String,
        ttl_override: Option<TimeSpan>,
        now: TimeSpan,
    )
        requires
            old(self)@.wf(),
        ensures
            final(self)@ == old(self)@.after_put(
                composite_key(contract_id@, key@),
                value@,
                span(ttl_override),
                now@,
            ),
            final(self)@.wf(),
    {
        let composite = cache_key(contract_id, key);
        let ttl = match ttl_override {
            Some(ttl) => ttl,
            None => self.default_ttl,
        };
        let expiry: u128 = now.as_nanos() + ttl.as_nanos();
        proof {
            lemma_put_is_store(self@, composite@, value@, span(ttl_override), now@);
        }
        lru_put(&mut self.cache, composite, value, expiry);
    }
}

impl ContractStateCache for LruCacheImpl {
    open spec fn state(&self) -> BackendState {
        self@.backend()
    }

    open spec fn wf(&self) -> bool {
        self@.wf()
    }

    /// Looks up `key` in the namespace `contract_id` as of now.
    fn get(&mut self, contract_id: &str, key: &str) -> (found: Option<String>)
        ensures
            exists|now: nat|
                text(found) == old(self)@.value_at(composite_key(contract_id@, key@), now)
                    && final(self)@ == #[trigger] old(self)@.after_get(
                    composite_key(contract_id@, key@),
                    now,
                ),
    {
        let now = self.now();
        proof {
            lemma_get_is_lookup(self@, composite_key(contract_id@, key@), now@);
        }
        self.get_at(contract_id, key, now)
    }

    /// Stores `value` under `key` in the namespace `contract_id`, to live
    /// from now for `ttl_override` or, without one, the backend's own
    /// lifetime.
    fn put(&mut self, contract_id: &str, key: &str, value: String, ttl_override: Option<TimeSpan>)
        ensures
            exists|now: nat|
                final(self)@ == #[trigger] old(self)@.after_put(
                    composite_key(contract_id@, key@),
                    value@,
                    span(ttl_override),
                    now,
                ),
    {
        let now = self.now();
        proof {
            lemma_put_is_store(
                self@,
                composite_key(contract_id@, key@),
                value@,
                span(ttl_override),
                now@,
            );
        }
        self.put_at(contract_id, key, value, ttl_override, now)
    }

    /// Removes the entry of `key` in the namespace `contract_id`, if there
    /// is one.
    fn invalidate(&mut self, contract_id: &str, key: &str)
        ensures
            final(self)@ == old(self)@.after_invalidate(composite_key(contract_id@, key@)),
    {
        let composite = cache_key(contract_id, key);
        proof {
            lemma_invalidate_is_invalidation(self@, composite@);
        }
        lru_pop(&mut self.cache, &composite);
    }

    fn metrics(&self) -> (metrics: &CacheMetrics)
        ensures
            *metrics == self@.metrics,
    {
        &self.metrics
    }

    fn metrics_mut(&mut self) -> (metrics: &mut CacheMetrics)
        ensures
            final(self)@ == (LruState { metrics: *final(metrics), ..old(self)@ }),
    {
        &mut self.metrics
    }
}

} // verus!
