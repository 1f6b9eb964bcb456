//! What a cache layer is built from.

use crate::time::TimeSpan;
use vstd::prelude::*;

verus! {

/// The rule by which a full cache chooses the entry that leaves.
#[derive(Clone, Copy, Debug, PartialEq, Eq, Structural)]
pub enum EvictionPolicy {
    /// The least recently used entry leaves.
    Lru,
    /// Entries that are used seldom leave, by an estimate of how often each
    /// was used lately.
    Lfu,
}

/// The settings of a cache layer. They do not change once the layer is made.
#[derive(Clone, Copy, Debug)]
pub struct CacheConfig {
    /// With `false` the layer stores nothing and finds nothing.
    pub enabled: bool,
    /// The eviction rule, and with it the backend.
    pub policy: EvictionPolicy,
    /// How long an entry lives where no other lifetime is given for it.
    pub global_ttl: TimeSpan,
    /// The number of entries the cache may hold.
    pub max_capacity: u64,
}

/// The longest lifetime that the frequency-based backend takes: 1000 years
/// of 365 days, in nanoseconds.
pub open spec fn max_lfu_ttl() -> nat {
    1000 * 365 * 24 * 3600 * 1_000_000_000
}

/// `max_lfu_ttl` as a number of the machine.
const MAX_LFU_TTL_NANOS: u128 = 31_536_000_000_000_000_000;

impl CacheConfig {
    /// Whether a layer can be built from these settings: the recency-based
    /// backend needs room for at least one entry, in a number that the
    /// machine can address; the frequency-based backend takes no lifetime
    /// above `max_lfu_ttl`.
    pub open spec fn valid(self) -> bool {
        match self.policy {
            EvictionPolicy::Lru => 0 < self.max_capacity <= usize::MAX,
            EvictionPolicy::Lfu => self.global_ttl@ <= max_lfu_ttl(),
        }
    }

    /// Tests whether a layer can be built from these settings.
    pub fn is_valid(&self) -> (ok: bool)
        ensures
            ok == self.valid(),
    {
        match self.policy {
            EvictionPolicy::Lru => 0 < self.max_capacity && self.max_capacity <= usize::MAX as u64,
            EvictionPolicy::Lfu => self.global_ttl.as_nanos() <= MAX_LFU_TTL_NANOS,
        }
    }
}

impl Default for CacheConfig {
    /// Enabled, frequency-based, entries live 60 seconds, room for 10,000.
    fn default() -> (config: CacheConfig)
        ensures
            config.enabled,
            config.policy == EvictionPolicy::Lfu,
            config.global_ttl@ == 60 * 1_000_000_000,
            config.max_capacity == 10_000,
            config.valid(),
    {
        CacheConfig {
            enabled: true,
            policy: EvictionPolicy::Lfu,
            global_ttl: TimeSpan::from_secs(60),
            max_capacity: 10_000,
        }
    }
}

} // verus!
