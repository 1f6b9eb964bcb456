//! The bounded, recency-ordered store of the `lru` crate, as the library sees
//! it: what it holds, in which order, and what each call does to that.
//!
//! None of this is proved: it is what the crate's source shows. The store
//! keeps one entry for a key. The calls ask their callers to know that of
//! the entries (`distinct_keys`), so that "the entry of a key" is one entry.

use crate::slots::{distinct_keys, holds, promoted, slot_of, slots_after_put, slots_without, Slot};
use std::num::NonZeroUsize;
use vstd::prelude::*;

verus! {

/// `lru::LruCache`: a map of bounded size that keeps its entries in order of
/// use and gives up the least recently used one when it is full.
#[verifier::external_type_specification]
#[verifier::external_body]
#[verifier::reject_recursive_types(K)]
#[verifier::reject_recursive_types(V)]
#[verifier::reject_recursive_types(S)]
pub struct ExLruCache<K, V, S>(lru::LruCache<K, V, S>);

/// `lru::DefaultHasher`: the hasher that an `LruCache` takes where none is
/// named. It is only carried along.
#[verifier::external_type_specification]
#[verifier::external_body]
pub struct ExDefaultHasher(lru::DefaultHasher);

/// The entries of the store, the most recently used first.
pub uninterp spec fn lru_slots(store: lru::LruCache<String, (String, u128)>) -> Seq<Slot>;

/// The number of entries that the store was made to hold at most.
pub uninterp spec fn lru_capacity(store: lru::LruCache<String, (String, u128)>) -> nat;

/// `LruCache::sparse` makes an empty store for at most `capacity` entries,
/// without reserving room for them.
#[verifier::external_body]
pub(crate) fn lru_sparse(capacity: usize) -> (store: lru::LruCache<String, (String, u128)>)
    requires
        capacity > 0,
    ensures
        lru_slots(store) == Seq::<Slot>::empty(),
        lru_capacity(store) == capacity,
{
    lru::LruCache::sparse(NonZeroUsize::new(capacity).unwrap())
}

/// `LruCache::get` looks `key` up. An entry that it finds becomes the most
/// recently used and a copy of it is returned; the store is otherwise left
/// as it was.
#[verifier::external_body]
pub(crate) fn lru_get(store: &mut lru::LruCache<String, (String, u128)>, key: &String) -> (found:
    Option<(String, u128)>)
    requires
        distinct_keys(lru_slots(*old(store))),
    ensures
        lru_capacity(*final(store)) == lru_capacity(*old(store)),
        !holds(lru_slots(*old(store)), key@) ==> found is None && lru_slots(*final(store))
            == lru_slots(*old(store)),
        holds(lru_slots(*old(store)), key@) ==> {
            let i = slot_of(lru_slots(*old(store)), key@);
            &&& found matches Some(entry)
            &&& entry.0@ == lru_slots(*old(store))[i].1
            &&& entry.1 == lru_slots(*old(store))[i].2
            &&& lru_slots(*final(store)) == promoted(lru_slots(*old(store)), i)
        },
{
    store.get(key).cloned()
}

/// `LruCache::put` stores `value` and `expiry` under `key` as the most
/// recently used entry. It replaces an entry of the same key; otherwise, in a
/// full store, the least recently used entry makes room.
#[verifier::external_body]
pub(crate) fn lru_put(
    store: &mut lru::LruCache<String, (String, u128)>,
    key: String,
    value: String,
    expiry: u128,
)
    requires
        distinct_keys(lru_slots(*old(store))),
        lru_slots(*old(store)).len() <= lru_capacity(*old(store)),
    ensures
        lru_capacity(*final(store)) == lru_capacity(*old(store)),
        lru_slots(*final(store)) == slots_after_put(
            lru_slots(*old(store)),
            lru_capacity(*old(store)),
            (key@, value@, expiry as nat),
        ),
{
    store.put(key, (value, expiry));
}

/// `LruCache::pop` removes the entry of `key`, if there is one, and leaves
/// the others in their order.
#[verifier::external_body]
pub(crate) fn lru_pop(store: &mut lru::LruCache<String, (String, u128)>, key: &String)
    requires
        distinct_keys(lru_slots(*old(store))),
    ensures
        lru_capacity(*final(store)) == lru_capacity(*old(store)),
        lru_slots(*final(store)) == slots_without(lru_slots(*old(store)), key@),
{
    store.pop(key);
}

} // verus!
