//! What holds of the cache across calls, proved from the contracts of the
//! calls.

use crate::backend::{lemma_held_in_larger, BackendState};
use crate::config::CacheConfig;
use crate::key::{composite_key, lemma_composite_key_injective};
use crate::layer::{
    lemma_invalidate_in_store, lemma_lookup_in_store, lemma_store_in_store, LayerState, StoreState,
};
use crate::lru_backend::{
    lemma_get_is_lookup, lemma_invalidate_is_invalidation, lemma_put_is_store, LruState,
};
use crate::metrics::{latency_sample, CacheMetrics};
use crate::slots::{
    evicts, holds, lemma_after_put, lemma_found_in_place, lemma_promoted, lemma_removed,
    lemma_without, lookup, slot_of,
};
use vstd::prelude::*;

verus! {

/// In the exact-recency backend, a value that was stored is found under its
/// key, unchanged, by a lookup made before the entry's lifetime has passed.
pub proof fn law_lru_finds_what_was_stored(
    state: LruState,
    namespace: Seq<char>,
    key: Seq<char>,
    value: Seq<char>,
    ttl_override: Option<nat>,
    stored_at: nat,
    looked_up_at: nat,
)
    requires
        state.wf(),
        looked_up_at < stored_at + state.lifetime(ttl_override),
    ensures
        state.after_put(composite_key(namespace, key), value, ttl_override, stored_at).value_at(
            composite_key(namespace, key),
            looked_up_at,
        ) == Some(value),
{
    let k = composite_key(namespace, key);
    lemma_after_put(state.slots, state.capacity, (k, value, stored_at + state.lifetime(ttl_override)));
}

/// In the exact-recency backend, a lookup made when the lifetime of an entry
/// has passed finds nothing, counts a miss and removes the entry, so that no
/// later lookup finds it either, whatever the clock says then.
pub proof fn law_lru_drops_what_has_expired(
    state: LruState,
    namespace: Seq<char>,
    key: Seq<char>,
    value: Seq<char>,
    ttl_override: Option<nat>,
    stored_at: nat,
    looked_up_at: nat,
    later: nat,
)
    requires
        state.wf(),
        looked_up_at >= stored_at + state.lifetime(ttl_override),
    ensures
        ({
            let k = composite_key(namespace, key);
            let stored = state.after_put(k, value, ttl_override, stored_at);
            &&& stored.value_at(k, looked_up_at) is None
            &&& stored.after_get(k, looked_up_at).metrics == state.metrics.with_miss()
            &&& !holds(stored.after_get(k, looked_up_at).slots, k)
            &&& stored.after_get(k, looked_up_at).value_at(k, later) is None
        }),
{
    let k = composite_key(namespace, key);
    let slot = (k, value, stored_at + state.lifetime(ttl_override));
    lemma_after_put(state.slots, state.capacity, slot);
    let stored = state.after_put(k, value, ttl_override, stored_at);
    lemma_removed(stored.slots, slot_of(stored.slots, k));
}

/// In the exact-recency backend, storing under a new key when the backend is
/// full makes the least recently used entry leave, and no other: the new
/// value is found, the key that left is not, and every other key is found
/// as before.
pub proof fn law_lru_evicts_least_recently_used(
    state: LruState,
    key: Seq<char>,
    value: Seq<char>,
    ttl_override: Option<nat>,
    stored_at: nat,
    other: Seq<char>,
    looked_up_at: nat,
)
    requires
        state.wf(),
        state.slots.len() == state.capacity,
        !holds(state.slots, key),
    ensures
        ({
            let stored = state.after_put(key, value, ttl_override, stored_at);
            let evicted = state.slots.last().0;
            &&& stored.wf()
            &&& stored.slots.len() == state.capacity
            &&& holds(state.slots, evicted)
            &&& !holds(stored.slots, evicted)
            &&& stored.value_at(evicted, looked_up_at) is None
            &&& looked_up_at < stored_at + state.lifetime(ttl_override) ==> stored.value_at(
                key,
                looked_up_at,
            ) == Some(value)
            &&& other != key && other != evicted ==> stored.value_at(other, looked_up_at)
                == state.value_at(other, looked_up_at)
        }),
{
    let slot = (key, value, stored_at + state.lifetime(ttl_override));
    lemma_after_put(state.slots, state.capacity, slot);
    lemma_found_in_place(state.slots, state.slots.len() - 1);
    let stored = state.after_put(key, value, ttl_override, stored_at);
    let evicted = state.slots.last().0;
    assert(evicts(state.slots, state.capacity, key));
    assert(lookup(stored.slots, evicted) is None);
    if other != key && other != evicted {
        assert(lookup(stored.slots, other) == lookup(state.slots, other));
    }
}

/// The exact-recency backend never holds more entries than its capacity,
/// nor a key twice, whatever is looked up, stored or invalidated, and its
/// capacity and its own lifetime stay what they are.
pub proof fn law_lru_stays_within_capacity(
    state: LruState,
    key: Seq<char>,
    value: Seq<char>,
    ttl_override: Option<nat>,
    now: nat,
)
    requires
        state.wf(),
    ensures
        state.after_get(key, now).wf(),
        state.after_put(key, value, ttl_override, now).wf(),
        state.after_invalidate(key).wf(),
        state.after_get(key, now).slots.len() <= state.capacity,
        state.after_put(key, value, ttl_override, now).slots.len() <= state.capacity,
        state.after_invalidate(key).slots.len() <= state.capacity,
        state.after_get(key, now).capacity == state.capacity,
        state.after_put(key, value, ttl_override, now).capacity == state.capacity,
        state.after_invalidate(key).capacity == state.capacity,
        state.after_get(key, now).default_ttl == state.default_ttl,
        state.after_put(key, value, ttl_override, now).default_ttl == state.default_ttl,
        state.after_invalidate(key).default_ttl == state.default_ttl,
{
    lemma_get_is_lookup(state, key, now);
    lemma_put_is_store(state, key, value, ttl_override, now);
    lemma_invalidate_is_invalidation(state, key);
}

/// The exact-recency backend after the values of `items` were stored one
/// after the other, each under its key and with the backend's own lifetime,
/// at the time `stored_at`.
pub open spec fn after_puts(
    state: LruState,
    items: Seq<(Seq<char>, Seq<char>)>,
    stored_at: nat,
) -> LruState
    decreases items.len(),
{
    if items.len() == 0 {
        state
    } else {
        after_puts(state, items.drop_last(), stored_at).after_put(
            items.last().0,
            items.last().1,
            None,
            stored_at,
        )
    }
}

/// No two of `items` share a key.
pub open spec fn distinct_items(items: Seq<(Seq<char>, Seq<char>)>) -> bool {
    forall|i: int, j: int|
        0 <= i < j < items.len() ==> (#[trigger] items[i]).0 != (#[trigger] items[j]).0
}

/// An empty exact-recency backend that takes no more values under distinct
/// keys than it has room for holds them all, the last one stored first.
pub proof fn lemma_lru_fills_in_order(
    capacity: nat,
    ttl: nat,
    items: Seq<(Seq<char>, Seq<char>)>,
    stored_at: nat,
)
    requires
        capacity > 0,
        items.len() <= capacity,
        distinct_items(items),
    ensures
        ({
            let filled = after_puts(LruState::empty(capacity, ttl), items, stored_at);
            &&& filled.wf()
            &&& filled.capacity == capacity
            &&& filled.default_ttl == ttl
            &&& filled.slots.len() == items.len()
            &&& forall|j: int|
                0 <= j < items.len() ==> #[trigger] filled.slots[j] == (
                    items[items.len() - 1 - j].0,
                    items[items.len() - 1 - j].1,
                    stored_at + ttl,
                )
        }),
    decreases items.len(),
{
    if items.len() > 0 {
        let n = items.len() as int;
        let earlier = items.drop_last();
        lemma_lru_fills_in_order(capacity, ttl, earlier, stored_at);
        let before = after_puts(LruState::empty(capacity, ttl), earlier, stored_at);
        let slot = (items.last().0, items.last().1, stored_at + ttl);
        if holds(before.slots, slot.0) {
            let j = slot_of(before.slots, slot.0);
            assert(before.slots[j].0 == earlier[n - 2 - j].0);
            assert(earlier[n - 2 - j] == items[n - 2 - j]);
        }
        lemma_after_put(before.slots, capacity, slot);
        let filled = after_puts(LruState::empty(capacity, ttl), items, stored_at);
        assert(filled.slots =~= seq![slot] + before.slots);
        assert forall|j: int| 0 <= j < items.len() implies #[trigger] filled.slots[j] == (
            items[n - 1 - j].0,
            items[n - 1 - j].1,
            stored_at + ttl,
        ) by {
            if j > 0 {
                assert(filled.slots[j] == before.slots[j - 1]);
                assert(earlier[n - 1 - j] == items[n - 1 - j]);
            }
        }
    }
}

/// An empty exact-recency backend into which one more value is stored than
/// it has room for, all under distinct keys, has given up the value that
/// was stored first and no other: a lookup of its key finds nothing, and a
/// lookup of any other of the keys, made before the lifetime has passed,
/// finds the value stored under it.
pub proof fn law_lru_one_more_than_capacity(
    capacity: nat,
    ttl: nat,
    items: Seq<(Seq<char>, Seq<char>)>,
    stored_at: nat,
    i: int,
    looked_up_at: nat,
)
    requires
        capacity > 0,
        items.len() == capacity + 1,
        distinct_items(items),
        0 <= i < items.len(),
        looked_up_at < stored_at + ttl,
    ensures
        after_puts(LruState::empty(capacity, ttl), items, stored_at).value_at(
            items[i].0,
            looked_up_at,
        ) == if i == 0 {
            None
        } else {
            Some(items[i].1)
        },
{
    let n = items.len() as int;
    let earlier = items.drop_last();
    lemma_lru_fills_in_order(capacity, ttl, earlier, stored_at);
    let before = after_puts(LruState::empty(capacity, ttl), earlier, stored_at);
    let slot = (items.last().0, items.last().1, stored_at + ttl);
    if holds(before.slots, slot.0) {
        let j = slot_of(before.slots, slot.0);
        assert(before.slots[j].0 == earlier[n - 2 - j].0);
        assert(earlier[n - 2 - j] == items[n - 2 - j]);
    }
    lemma_after_put(before.slots, capacity, slot);
    let after = after_puts(LruState::empty(capacity, ttl), items, stored_at);
    assert(before.slots.last() == before.slots[n - 2]);
    assert(earlier[0] == items[0]);
    if i == 0 {
        assert(lookup(after.slots, items[0].0) is None);
    } else if i < n - 1 {
        assert(earlier[i] == items[i]);
        assert(before.slots[n - 2 - i].0 == items[i].0);
        lemma_found_in_place(before.slots, n - 2 - i);
        assert(lookup(after.slots, items[i].0) == lookup(before.slots, items[i].0));
    }
}

/// In the exact-recency backend, storing under a key that is held, or into
/// a backend that is not full, makes no entry leave: every other key is
/// found as before.
pub proof fn law_lru_keeps_entries_while_there_is_room(
    state: LruState,
    key: Seq<char>,
    value: Seq<char>,
    ttl_override: Option<nat>,
    stored_at: nat,
    other: Seq<char>,
    looked_up_at: nat,
)
    requires
        state.wf(),
        holds(state.slots, key) || state.slots.len() < state.capacity,
        other != key,
    ensures
        state.after_put(key, value, ttl_override, stored_at).value_at(other, looked_up_at)
            == state.value_at(other, looked_up_at),
{
    let slot = (key, value, stored_at + state.lifetime(ttl_override));
    lemma_after_put(state.slots, state.capacity, slot);
    let stored = state.after_put(key, value, ttl_override, stored_at);
    assert(lookup(stored.slots, other) == lookup(state.slots, other));
}

/// In the exact-recency backend, a lookup that finds a value makes its
/// entry the most recently used and changes no entry: every key is found
/// as before, and the entry is not the next to leave unless it is the only
/// one.
pub proof fn law_lru_lookup_refreshes_recency(
    state: LruState,
    key: Seq<char>,
    looked_up_at: nat,
    other: Seq<char>,
    later: nat,
)
    requires
        state.wf(),
        state.value_at(key, looked_up_at) is Some,
    ensures
        ({
            let after = state.after_get(key, looked_up_at);
            &&& after.slots.len() == state.slots.len()
            &&& after.slots[0].0 == key
            &&& after.slots.len() > 1 ==> after.slots.last().0 != key
            &&& after.value_at(other, later) == state.value_at(other, later)
        }),
{
    let i = slot_of(state.slots, key);
    lemma_promoted(state.slots, i);
    let after = state.after_get(key, looked_up_at);
    assert(lookup(after.slots, other) == lookup(state.slots, other));
    lemma_found_in_place(after.slots, 0);
    if after.slots.len() > 1 {
        lemma_found_in_place(after.slots, after.slots.len() - 1);
    }
}

/// In the exact-recency backend, expiry is lazy: an entry stays among the
/// entries, expired or not, while other keys are looked up or invalidated,
/// whatever the clock says. Only a lookup of its own key, an invalidation of
/// it, or a store makes it leave.
pub proof fn law_lru_expiry_is_lazy(state: LruState, key: Seq<char>, other: Seq<char>, now: nat)
    requires
        state.wf(),
        other != key,
    ensures
        lookup(state.after_get(other, now).slots, key) == lookup(state.slots, key),
        lookup(state.after_invalidate(other).slots, key) == lookup(state.slots, key),
{
    if holds(state.slots, other) {
        let i = slot_of(state.slots, other);
        lemma_promoted(state.slots, i);
        lemma_removed(state.slots, i);
    }
    lemma_without(state.slots, other);
    assert(lookup(state.after_get(other, now).slots, key) == lookup(state.slots, key));
}

/// With any backend, a lookup that follows a store under the same key finds
/// the value that was stored or nothing, never another value.
pub proof fn law_lookup_after_store_is_never_stale(
    before: BackendState,
    key: Seq<char>,
    value: Seq<char>,
    stored: BackendState,
    found: Option<Seq<char>>,
    after: BackendState,
)
    requires
        before.stored(key, value, stored),
        stored.looked_up(key, found, after),
    ensures
        found is None || found == Some(value),
{
    if found is Some {
        lemma_held_in_larger(stored.entries, before.entries.insert(key, value), key);
    }
}

/// In any layer, whatever its policy and whether it is switched on or off,
/// a lookup that follows a store under the same key finds the value that
/// was stored or nothing, never another value.
pub proof fn law_layer_lookup_after_store_is_never_stale(
    before: LayerState,
    namespace: Seq<char>,
    key: Seq<char>,
    value: Seq<char>,
    ttl_override: Option<nat>,
    stored: LayerState,
    found: Option<Seq<char>>,
    after: LayerState,
)
    requires
        before.wf(),
        before.stored(composite_key(namespace, key), value, ttl_override, stored),
        stored.looked_up(composite_key(namespace, key), found, after),
    ensures
        found is None || found == Some(value),
{
    let k = composite_key(namespace, key);
    if before.config.enabled {
        lemma_store_in_store(before.store, k, value, ttl_override, stored.store);
        let (served, elapsed) = choose|served: StoreState, elapsed: nat|
            stored.store.looked_up(k, found, served) && after.store == #[trigger] served.timed(
                found,
                elapsed,
            );
        lemma_lookup_in_store(stored.store, k, found, served);
        law_lookup_after_store_is_never_stale(
            before.store.backend(),
            k,
            value,
            stored.store.backend(),
            found,
            served.backend(),
        );
    }
}

/// With any backend, a key under which nothing is held is looked up in
/// vain: nothing is found, one miss is counted and no hit.
pub proof fn law_lookup_of_absent_key_misses(
    before: BackendState,
    key: Seq<char>,
    found: Option<Seq<char>>,
    after: BackendState,
)
    requires
        !before.entries.contains_key(key),
        before.looked_up(key, found, after),
    ensures
        found is None,
        after.metrics == before.metrics.with_miss(),
        after.metrics.hits == before.metrics.hits,
        before.metrics.misses < usize::MAX ==> after.metrics.misses == before.metrics.misses + 1,
        !after.entries.contains_key(key),
{
    if after.entries.contains_key(key) {
        lemma_held_in_larger(after.entries, before.entries, key);
    }
}

/// With any backend, a key under which nothing is held stays so while
/// values are stored, looked up and invalidated under a different pair of
/// namespace and key.
pub proof fn law_other_pairs_leave_key_absent(
    before: BackendState,
    namespace: Seq<char>,
    key: Seq<char>,
    other_namespace: Seq<char>,
    other_key: Seq<char>,
    value: Seq<char>,
    found: Option<Seq<char>>,
    after: BackendState,
)
    requires
        !before.entries.contains_key(composite_key(namespace, key)),
        namespace != other_namespace || key != other_key,
        before.stored(composite_key(other_namespace, other_key), value, after)
            || before.looked_up(composite_key(other_namespace, other_key), found, after)
            || before.invalidated(composite_key(other_namespace, other_key), after),
    ensures
        !after.entries.contains_key(composite_key(namespace, key)),
{
    let k = composite_key(namespace, key);
    let other = composite_key(other_namespace, other_key);
    if k == other {
        lemma_composite_key_injective(namespace, key, other_namespace, other_key);
    }
    if after.entries.contains_key(k) {
        if before.stored(other, value, after) {
            lemma_held_in_larger(after.entries, before.entries.insert(other, value), k);
        } else if before.looked_up(other, found, after) {
            lemma_held_in_larger(after.entries, before.entries, k);
        } else {
            lemma_held_in_larger(after.entries, before.entries.remove(other), k);
        }
    }
}

/// Counting never lowers a counter that has room: a count below
/// `usize::MAX` grows by one, a sum that stays within `usize::MAX` grows by
/// the latency in whole microseconds, and every other counter stays.
pub proof fn law_counters_do_not_decrease(before: CacheMetrics, nanos: nat)
    ensures
        before.hits < usize::MAX ==> before.at_most(before.with_hit()) && before.with_hit().hits
            == before.hits + 1,
        before.misses < usize::MAX ==> before.at_most(before.with_miss())
            && before.with_miss().misses == before.misses + 1,
        before.cached_count < usize::MAX && before.cached_latency_sum_micros + latency_sample(
            nanos,
        ) <= usize::MAX ==> before.at_most(before.with_cached_latency(nanos))
            && before.with_cached_latency(nanos).cached_count == before.cached_count + 1
            && before.with_cached_latency(nanos).cached_latency_sum_micros
            == before.cached_latency_sum_micros + latency_sample(nanos),
        before.uncached_count < usize::MAX && before.uncached_latency_sum_micros + latency_sample(
            nanos,
        ) <= usize::MAX ==> before.at_most(before.with_uncached_latency(nanos))
            && before.with_uncached_latency(nanos).uncached_count == before.uncached_count + 1
            && before.with_uncached_latency(nanos).uncached_latency_sum_micros
            == before.uncached_latency_sum_micros + latency_sample(nanos),
        nanos / 1000 <= usize::MAX ==> latency_sample(nanos) == nanos / 1000,
{
    if nanos / 1000 <= usize::MAX {
        vstd::arithmetic::div_mod::lemma_small_mod(nanos / 1000, usize::MAX as nat + 1);
    }
}

/// A layer that is switched on counts every lookup exactly once: a lookup
/// that finds a value counts one hit and one latency of a lookup served from
/// the cache; a lookup that finds nothing counts one miss and no latency.
/// Storing and invalidating count nothing.
pub proof fn law_layer_counts_each_lookup_once(
    before: LayerState,
    key: Seq<char>,
    value: Seq<char>,
    ttl_override: Option<nat>,
    found: Option<Seq<char>>,
    after: LayerState,
)
    requires
        before.wf(),
        before.config.enabled,
    ensures
        before.looked_up(key, found, after) && found is Some ==> exists|elapsed: nat|
            after.metrics() == #[trigger] before.metrics().with_hit().with_cached_latency(elapsed),
        before.looked_up(key, found, after) && found is None ==> after.metrics()
            == before.metrics().with_miss(),
        before.stored(key, value, ttl_override, after) ==> after.metrics() == before.metrics(),
        before.invalidated(key, after) ==> after.metrics() == before.metrics(),
{
    if before.stored(key, value, ttl_override, after) {
        lemma_store_in_store(before.store, key, value, ttl_override, after.store);
    }
    if before.invalidated(key, after) {
        lemma_invalidate_in_store(before.store, key, after.store);
    }
    if before.looked_up(key, found, after) {
        let (served, elapsed) = choose|served: StoreState, elapsed: nat|
            before.store.looked_up(key, found, served) && after.store == #[trigger] served.timed(
                found,
                elapsed,
            );
        lemma_lookup_in_store(before.store, key, found, served);
        if found is Some {
            assert(after.metrics() == before.metrics().with_hit().with_cached_latency(elapsed));
        }
    }
}

/// A layer that was just made holds nothing and has counted nothing.
pub proof fn law_new_layer_is_empty(config: CacheConfig, key: Seq<char>)
    ensures
        !LayerState::initial(config).store.backend().entries.contains_key(key),
        LayerState::initial(config).metrics() == CacheMetrics::zeroed(),
{
}

/// A layer that is switched on looks up in vain a key under which its
/// backend holds nothing: nothing is found, one miss is counted, and neither
/// a hit nor a latency.
pub proof fn law_layer_lookup_of_absent_key_misses(
    before: LayerState,
    namespace: Seq<char>,
    key: Seq<char>,
    found: Option<Seq<char>>,
    after: LayerState,
)
    requires
        before.wf(),
        before.config.enabled,
        !before.store.backend().entries.contains_key(composite_key(namespace, key)),
        before.looked_up(composite_key(namespace, key), found, after),
    ensures
        found is None,
        after.metrics() == before.metrics().with_miss(),
        after.metrics().hits == before.metrics().hits,
        before.metrics().misses < usize::MAX ==> after.metrics().misses == before.metrics().misses
            + 1,
{
    let k = composite_key(namespace, key);
    let (served, elapsed) = choose|served: StoreState, elapsed: nat|
        before.store.looked_up(k, found, served) && after.store == #[trigger] served.timed(
            found,
            elapsed,
        );
    lemma_lookup_in_store(before.store, k, found, served);
}

/// In any layer, whatever its policy and whether it is switched on or off,
/// a value that was stored and then invalidated is not found by the next
/// lookup of its key.
pub proof fn law_invalidated_key_is_not_found(
    before: LayerState,
    namespace: Seq<char>,
    key: Seq<char>,
    value: Seq<char>,
    ttl_override: Option<nat>,
    stored: LayerState,
    invalidated: LayerState,
    found: Option<Seq<char>>,
    after: LayerState,
)
    requires
        before.wf(),
        before.stored(composite_key(namespace, key), value, ttl_override, stored),
        stored.invalidated(composite_key(namespace, key), invalidated),
        invalidated.looked_up(composite_key(namespace, key), found, after),
    ensures
        found is None,
        before.config.enabled ==> after.metrics() == before.metrics().with_miss(),
{
    let k = composite_key(namespace, key);
    if before.config.enabled {
        lemma_store_in_store(before.store, k, value, ttl_override, stored.store);
        lemma_invalidate_in_store(stored.store, k, invalidated.store);
        let (served, elapsed) = choose|served: StoreState, elapsed: nat|
            invalidated.store.looked_up(k, found, served) && after.store
                == #[trigger] served.timed(found, elapsed);
        lemma_lookup_in_store(invalidated.store, k, found, served);
        if found is Some {
            lemma_held_in_larger(
                invalidated.store.backend().entries,
                stored.store.backend().entries.remove(k),
                k,
            );
        }
    }
}

/// In a layer that is switched off, whatever its policy, a value that is
/// stored is not kept: the next lookup of its key finds nothing, and the
/// layer is as it was before, counters and all.
pub proof fn law_disabled_layer_stores_nothing(
    before: LayerState,
    namespace: Seq<char>,
    key: Seq<char>,
    value: Seq<char>,
    ttl_override: Option<nat>,
    stored: LayerState,
    found: Option<Seq<char>>,
    after: LayerState,
)
    requires
        !before.config.enabled,
        before.stored(composite_key(namespace, key), value, ttl_override, stored),
        stored.looked_up(composite_key(namespace, key), found, after),
    ensures
        found is None,
        stored == before,
        after == before,
{
}

} // verus!
