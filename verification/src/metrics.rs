//! Counters of hits, misses and latencies, and the figures derived from them.

use crate::time::TimeSpan;
use vstd::prelude::*;
use vstd::wrapping::usize_specs;

verus! {

/// A non-negative fraction `numer / denom` of two integers, `denom` not zero.
#[derive(Clone, Copy, Debug, PartialEq, Eq)]
pub struct Ratio {
    pub numer: u128,
    pub denom: u128,
}

impl Ratio {
    /// The fraction 0.
    pub open spec fn zero() -> Ratio {
        Ratio { numer: 0, denom: 1 }
    }

    /// The fraction 1.
    pub open spec fn one() -> Ratio {
        Ratio { numer: 1, denom: 1 }
    }

    /// Whether the fraction is 0.
    pub open spec fn is_zero(self) -> bool {
        self.numer == 0
    }
}

/// A latency in whole microseconds, cut to the width of a counter.
pub open spec fn latency_sample(nanos: nat) -> usize {
    ((nanos / 1000) % (usize::MAX as nat + 1)) as usize
}

/// The counters of a cache. Each one wraps around at `usize::MAX`.
#[derive(Clone, Copy, Debug)]
pub struct CacheMetrics {
    /// Lookups that found a live value.
    pub hits: usize,
    /// Lookups that found nothing, or only an expired value.
    pub misses: usize,
    /// Sum of the latencies of lookups served from the cache, in microseconds.
    pub cached_latency_sum_micros: usize,
    /// Number of latencies in `cached_latency_sum_micros`.
    pub cached_count: usize,
    /// Sum of the latencies of computations made without the cache, in
    /// microseconds.
    pub uncached_latency_sum_micros: usize,
    /// Number of latencies in `uncached_latency_sum_micros`.
    pub uncached_count: usize,
}

impl CacheMetrics {
    /// Counters that have counted nothing.
    pub open spec fn zeroed() -> CacheMetrics {
        CacheMetrics {
            hits: 0,
            misses: 0,
            cached_latency_sum_micros: 0,
            cached_count: 0,
            uncached_latency_sum_micros: 0,
            uncached_count: 0,
        }
    }

    /// No counter of `later` is below its value here.
    pub open spec fn at_most(self, later: CacheMetrics) -> bool {
        &&& self.hits <= later.hits
        &&& self.misses <= later.misses
        &&& self.cached_latency_sum_micros <= later.cached_latency_sum_micros
        &&& self.cached_count <= later.cached_count
        &&& self.uncached_latency_sum_micros <= later.uncached_latency_sum_micros
        &&& self.uncached_count <= later.uncached_count
    }

    /// The counters after one more hit.
    pub open spec fn with_hit(self) -> CacheMetrics {
        CacheMetrics { hits: usize_specs::wrapping_add(self.hits, 1), ..self }
    }

    /// The counters after one more miss.
    pub open spec fn with_miss(self) -> CacheMetrics {
        CacheMetrics { misses: usize_specs::wrapping_add(self.misses, 1), ..self }
    }

    /// The counters after one more lookup, a hit or a miss.
    pub open spec fn with_lookup(self, hit: bool) -> CacheMetrics {
        if hit {
            self.with_hit()
        } else {
            self.with_miss()
        }
    }

    /// The counters after a lookup served from the cache took `nanos`
    /// nanoseconds.
    pub open spec fn with_cached_latency(self, nanos: nat) -> CacheMetrics {
        CacheMetrics {
            cached_latency_sum_micros: usize_specs::wrapping_add(
                self.cached_latency_sum_micros,
                latency_sample(nanos),
            ),
            cached_count: usize_specs::wrapping_add(self.cached_count, 1),
            ..self
        }
    }

    /// The counters after a computation made without the cache took `nanos`
    /// nanoseconds.
    pub open spec fn with_uncached_latency(self, nanos: nat) -> CacheMetrics {
        CacheMetrics {
            uncached_latency_sum_micros: usize_specs::wrapping_add(
                self.uncached_latency_sum_micros,
                latency_sample(nanos),
            ),
            uncached_count: usize_specs::wrapping_add(self.uncached_count, 1),
            ..self
        }
    }

    /// The share of hits among all lookups, in percent; 0 before any lookup.
    pub open spec fn hit_rate_spec(self) -> Ratio {
        if self.hits + self.misses == 0 {
            Ratio::zero()
        } else {
            Ratio { numer: (self.hits * 100) as u128, denom: (self.hits + self.misses) as u128 }
        }
    }

    /// The mean of `count` latencies that add up to `sum`; 0 where there is
    /// none.
    pub open spec fn mean(sum: usize, count: usize) -> Ratio {
        if count == 0 {
            Ratio::zero()
        } else {
            Ratio { numer: sum as u128, denom: count as u128 }
        }
    }

    /// The mean latency of lookups served from the cache, in microseconds.
    pub open spec fn avg_cached_latency_spec(self) -> Ratio {
        Self::mean(self.cached_latency_sum_micros, self.cached_count)
    }

    /// The mean latency of computations made without the cache, in
    /// microseconds.
    pub open spec fn avg_uncached_latency_spec(self) -> Ratio {
        Self::mean(self.uncached_latency_sum_micros, self.uncached_count)
    }

    /// How many times longer a computation without the cache takes than a
    /// lookup served from it: 1 while the mean cached latency is 0, else 0
    /// while the mean uncached latency is 0, else the quotient of the two.
    pub open spec fn improvement_factor_spec(self) -> Ratio {
        let cached = self.avg_cached_latency_spec();
        let uncached = self.avg_uncached_latency_spec();
        if cached.is_zero() {
            Ratio::one()
        } else if uncached.is_zero() {
            Ratio::zero()
        } else {
            Ratio {
                numer: (uncached.numer * cached.denom) as u128,
                denom: (uncached.denom * cached.numer) as u128,
            }
        }
    }

    /// Counters that have counted nothing.
    pub fn new() -> (metrics: CacheMetrics)
        ensures
            metrics == CacheMetrics::zeroed(),
    {
        CacheMetrics {
            hits: 0,
            misses: 0,
            cached_latency_sum_micros: 0,
            cached_count: 0,
            uncached_latency_sum_micros: 0,
            uncached_count: 0,
        }
    }

    /// Counts one hit.
    pub fn record_hit(&mut self)
        ensures
            *final(self) == old(self).with_hit(),
            old(self).hits < usize::MAX ==> final(self).hits == old(self).hits + 1,
    {
        self.hits = self.hits.wrapping_add(1);
    }

    /// Counts one miss.
    pub fn record_miss(&mut self)
        ensures
            *final(self) == old(self).with_miss(),
            old(self).misses < usize::MAX ==> final(self).misses == old(self).misses + 1,
    {
        self.misses = self.misses.wrapping_add(1);
    }

    /// Counts one lookup: a hit if `hit`, else a miss.
    pub fn record_lookup(&mut self, hit: bool)
        ensures
            *final(self) == old(self).with_lookup(hit),
    {
        if hit {
            self.record_hit();
        } else {
            self.record_miss();
        }
    }

    /// Adds the latency of a lookup served from the cache.
    pub fn record_cached_latency(&mut self, duration: TimeSpan)
        ensures
            *final(self) == old(self).with_cached_latency(duration@),
    {
        let sample = sample_of(duration);
        self.cached_latency_sum_micros = self.cached_latency_sum_micros.wrapping_add(sample);
        self.cached_count = self.cached_count.wrapping_add(1);
    }

    /// Adds the latency of a computation made without the cache.
    pub fn record_uncached_latency(&mut self, duration: TimeSpan)
        ensures
            *final(self) == old(self).with_uncached_latency(duration@),
    {
        let sample = sample_of(duration);
        self.uncached_latency_sum_micros = self.uncached_latency_sum_micros.wrapping_add(sample);
        self.uncached_count = self.uncached_count.wrapping_add(1);
    }

    /// The share of hits among all lookups, in percent; 0 before any lookup.
    pub fn hit_rate(&self) -> (rate: Ratio)
        ensures
            rate == self.hit_rate_spec(),
            rate.denom > 0,
            rate.numer <= 100 * rate.denom,
    {
        let hits = self.hits as u128;
        let total = hits + self.misses as u128;
        if total == 0 {
            Ratio { numer: 0, denom: 1 }
        } else {
            Ratio { numer: hits * 100, denom: total }
        }
    }

    /// The mean latency of lookups served from the cache, in microseconds; 0
    /// where there was none.
    pub fn avg_cached_latency(&self) -> (mean: Ratio)
        ensures
            mean == self.avg_cached_latency_spec(),
            mean.denom > 0,
    {
        mean_of(self.cached_latency_sum_micros, self.cached_count)
    }

    /// The mean latency of computations made without the cache, in
    /// microseconds; 0 where there was none.
    pub fn avg_uncached_latency(&self) -> (mean: Ratio)
        ensures
            mean == self.avg_uncached_latency_spec(),
            mean.denom > 0,
    {
        mean_of(self.uncached_latency_sum_micros, self.uncached_count)
    }

    /// How many times longer a computation without the cache takes than a
    /// lookup served from it. Without a cached latency above zero the factor
    /// is 1; with one, but without an uncached latency above zero, it is 0.
    pub fn improvement_factor(&self) -> (factor: Ratio)
        ensures
            factor == self.improvement_factor_spec(),
            factor.denom > 0,
            self.cached_count == 0 ==> factor == Ratio::one(),
            self.uncached_count == 0 && !self.avg_cached_latency_spec().is_zero() ==> factor
                == Ratio::zero(),
    {
        let cached = self.avg_cached_latency();
        let uncached = self.avg_uncached_latency();
        if cached.numer == 0 {
            Ratio { numer: 1, denom: 1 }
        } else if uncached.numer == 0 {
            Ratio { numer: 0, denom: 1 }
        } else {
            assert(uncached.numer * cached.denom <= usize::MAX * usize::MAX) by (nonlinear_arith)
                requires
                    uncached.numer <= usize::MAX,
                    cached.denom <= usize::MAX,
            ;
            assert(uncached.denom * cached.numer <= usize::MAX * usize::MAX) by (nonlinear_arith)
                requires
                    uncached.denom <= usize::MAX,
                    cached.numer <= usize::MAX,
            ;
            assert(uncached.denom * cached.numer > 0) by (nonlinear_arith)
                requires
                    uncached.denom > 0,
                    cached.numer > 0,
            ;
            Ratio { numer: uncached.numer * cached.denom, denom: uncached.denom * cached.numer }
        }
    }
}

impl Default for CacheMetrics {
    fn default() -> (metrics: CacheMetrics)
        ensures
            metrics == CacheMetrics::zeroed(),
    {
        CacheMetrics::new()
    }
}

/// The latency `duration` in whole microseconds, cut to the width of a
/// counter.
fn sample_of(duration: TimeSpan) -> (sample: usize)
    ensures
        sample == latency_sample(duration@),
{
    let micros = duration.as_micros();
    (micros % (usize::MAX as u128 + 1)) as usize
}

/// The mean of `count` latencies that add up to `sum`.
fn mean_of(sum: usize, count: usize) -> (mean: Ratio)
    ensures
        mean == CacheMetrics::mean(sum, count),
        mean.denom > 0,
{
    if count == 0 {
        Ratio { numer: 0, denom: 1 }
    } else {
        Ratio { numer: sum as u128, denom: count as u128 }
    }
}

} // verus!
