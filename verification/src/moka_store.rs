//! The concurrent cache of the `moka` crate, as the library sees it. The
//! crate decides by itself what it keeps: it drops entries that are older
//! than their lifetime and, when it is full, those that it expects to be used
//! least. The contracts here say only what holds whatever it has dropped.
//!
//! None of this is proved: it is what the crate's source shows. The calls
//! take the cache by `&mut`, though the crate would let them share it: the
//! contracts speak of one caller at a time.

use crate::backend::Entries;
use crate::config::max_lfu_ttl;
use std::time::Duration;
use vstd::prelude::*;

verus! {

/// `moka::sync::Cache`: a concurrent cache with a bound on its size and a
/// lifetime for its entries.
#[verifier::external_type_specification]
#[verifier::external_body]
#[verifier::reject_recursive_types(K)]
#[verifier::reject_recursive_types(V)]
#[verifier::reject_recursive_types(S)]
pub struct ExMokaCache<K, V, S>(moka::sync::Cache<K, V, S>);

/// The entries that the cache still has in its table, each key with its
/// value.
pub uninterp spec fn moka_resident(cache: moka::sync::Cache<String, String>) -> Entries;

/// The bound on its size that the cache was built with.
pub uninterp spec fn moka_max_capacity(cache: moka::sync::Cache<String, String>) -> u64;

/// The lifetime of its entries that the cache was built with, in
/// nanoseconds.
pub uninterp spec fn moka_time_to_live(cache: moka::sync::Cache<String, String>) -> nat;

/// `CacheBuilder::build`, after `max_capacity` and `time_to_live`, makes an
/// empty cache with that bound and that lifetime. It panics on a lifetime
/// above 1000 years of 365 days.
#[verifier::external_body]
pub(crate) fn moka_build(max_capacity: u64, ttl_secs: u64, ttl_subsec_nanos: u32) -> (cache:
    moka::sync::Cache<String, String>)
    requires
        ttl_subsec_nanos < 1_000_000_000,
        ttl_secs * 1_000_000_000 + ttl_subsec_nanos <= max_lfu_ttl(),
    ensures
        moka_resident(cache) == Entries::empty(),
        moka_max_capacity(cache) == max_capacity,
        moka_time_to_live(cache) == ttl_secs * 1_000_000_000 + ttl_subsec_nanos,
{
    moka::sync::Cache::builder()
        .max_capacity(max_capacity)
        .time_to_live(Duration::new(ttl_secs, ttl_subsec_nanos))
        .build()
}

/// `Cache::get` returns a copy of the value that the table has under `key`,
/// unless there is none or it has expired. The call may drop entries from
/// the table and adds none. No call changes what the cache was built with.
#[verifier::external_body]
pub(crate) fn moka_get(cache: &mut moka::sync::Cache<String, String>, key: &String) -> (found:
    Option<String>)
    ensures
        found matches Some(value) ==> moka_resident(*old(cache)).contains_key(key@)
            && moka_resident(*old(cache))[key@] == value@,
        moka_resident(*final(cache)).submap_of(moka_resident(*old(cache))),
        moka_max_capacity(*final(cache)) == moka_max_capacity(*old(cache)),
        moka_time_to_live(*final(cache)) == moka_time_to_live(*old(cache)),
{
    cache.get(key)
}

/// `Cache::insert` puts `value` into the table under `key`, in place of any
/// value that was there. The call may drop entries from the table, the new
/// one too, and adds no other.
#[verifier::external_body]
pub(crate) fn moka_insert(cache: &mut moka::sync::Cache<String, String>, key: String, value: String)
    ensures
        moka_resident(*final(cache)).submap_of(moka_resident(*old(cache)).insert(key@, value@)),
        moka_max_capacity(*final(cache)) == moka_max_capacity(*old(cache)),
        moka_time_to_live(*final(cache)) == moka_time_to_live(*old(cache)),
{
    cache.insert(key, value);
}

/// `Cache::invalidate` takes the entry of `key` out of the table. The call
/// may drop other entries and adds none.
#[verifier::external_body]
pub(crate) fn moka_invalidate(cache: &mut moka::sync::Cache<String, String>, key: &String)
    ensures
        moka_resident(*final(cache)).submap_of(moka_resident(*old(cache)).remove(key@)),
        moka_max_capacity(*final(cache)) == moka_max_capacity(*old(cache)),
        moka_time_to_live(*final(cache)) == moka_time_to_live(*old(cache)),
{
    cache.invalidate(key);
}

} // verus!
