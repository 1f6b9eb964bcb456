use contract_cache::{CacheMetrics, Ratio, TimeSpan};

fn value(ratio: Ratio) -> f64 {
    ratio.numer as f64 / ratio.denom as f64
}

#[test]
fn new_metrics_are_zero() {
    let m = CacheMetrics::new();
    assert_eq!(m.hits, 0);
    assert_eq!(m.misses, 0);
    assert_eq!(m.cached_latency_sum_micros, 0);
    assert_eq!(m.cached_count, 0);
    assert_eq!(m.uncached_latency_sum_micros, 0);
    assert_eq!(m.uncached_count, 0);
    let d = CacheMetrics::default();
    assert_eq!(d.hits + d.misses + d.cached_count + d.uncached_count, 0);
}

#[test]
fn hit_rate_without_lookups_is_zero() {
    let m = CacheMetrics::new();
    assert_eq!(m.hit_rate(), Ratio { numer: 0, denom: 1 });
    assert_eq!(value(m.hit_rate()), 0.0);
}

#[test]
fn hit_rate_after_one_hit_and_one_miss_is_50() {
    let mut m = CacheMetrics::new();
    m.record_hit();
    m.record_miss();
    assert_eq!(m.hit_rate(), Ratio { numer: 100, denom: 2 });
    assert_eq!(value(m.hit_rate()), 50.0);
}

#[test]
fn hit_rate_of_three_hits_and_one_miss_is_75() {
    let mut m = CacheMetrics::new();
    m.record_lookup(true);
    m.record_lookup(true);
    m.record_lookup(false);
    m.record_lookup(true);
    assert_eq!(m.hits, 3);
    assert_eq!(m.misses, 1);
    assert_eq!(value(m.hit_rate()), 75.0);
}

#[test]
fn hit_rate_stays_within_0_and_100() {
    let mut m = CacheMetrics::new();
    m.hits = usize::MAX;
    m.misses = usize::MAX;
    let rate = m.hit_rate();
    assert!(rate.denom > 0);
    assert!(rate.numer <= 100 * rate.denom);
    assert_eq!(value(rate), 50.0);
    m.misses = 0;
    assert_eq!(value(m.hit_rate()), 100.0);
    m.hits = 0;
    m.misses = 9;
    assert_eq!(value(m.hit_rate()), 0.0);
}

#[test]
fn counters_wrap_at_the_top() {
    let mut m = CacheMetrics::new();
    m.hits = usize::MAX;
    m.misses = usize::MAX;
    m.record_hit();
    m.record_miss();
    assert_eq!(m.hits, 0);
    assert_eq!(m.misses, 0);
}

#[test]
fn latencies_are_summed_in_whole_micros() {
    let mut m = CacheMetrics::new();
    m.record_cached_latency(TimeSpan::new(0, 2_999));
    assert_eq!(m.cached_latency_sum_micros, 2);
    assert_eq!(m.cached_count, 1);
    m.record_cached_latency(TimeSpan::from_millis(4));
    assert_eq!(m.cached_latency_sum_micros, 4002);
    assert_eq!(m.cached_count, 2);
    m.record_uncached_latency(TimeSpan::from_secs(1));
    assert_eq!(m.uncached_latency_sum_micros, 1_000_000);
    assert_eq!(m.uncached_count, 1);
    assert_eq!(m.hits, 0);
    assert_eq!(m.misses, 0);
}

#[test]
fn latency_sum_wraps_at_the_top() {
    let mut m = CacheMetrics::new();
    m.cached_latency_sum_micros = usize::MAX;
    m.record_cached_latency(TimeSpan::new(0, 3_000));
    assert_eq!(m.cached_latency_sum_micros, 2);
}

#[test]
fn average_latencies() {
    let mut m = CacheMetrics::new();
    assert_eq!(m.avg_cached_latency(), Ratio { numer: 0, denom: 1 });
    assert_eq!(m.avg_uncached_latency(), Ratio { numer: 0, denom: 1 });
    m.record_cached_latency(TimeSpan::new(0, 10_000));
    m.record_cached_latency(TimeSpan::new(0, 25_000));
    m.record_uncached_latency(TimeSpan::from_millis(7));
    assert_eq!(m.avg_cached_latency(), Ratio { numer: 35, denom: 2 });
    assert_eq!(value(m.avg_cached_latency()), 17.5);
    assert_eq!(m.avg_uncached_latency(), Ratio { numer: 7000, denom: 1 });
    assert_eq!(value(m.avg_uncached_latency()), 7000.0);
}

#[test]
fn improvement_factor_without_any_sample_is_one() {
    let m = CacheMetrics::new();
    assert_eq!(m.improvement_factor(), Ratio { numer: 1, denom: 1 });
    assert_eq!(value(m.improvement_factor()), 1.0);
}

#[test]
fn improvement_factor_without_cached_samples_is_one() {
    let mut m = CacheMetrics::new();
    m.record_uncached_latency(TimeSpan::from_millis(5));
    m.record_uncached_latency(TimeSpan::from_millis(9));
    assert_eq!(value(m.improvement_factor()), 1.0);
}

#[test]
fn improvement_factor_without_uncached_samples_is_zero() {
    let mut m = CacheMetrics::new();
    m.record_cached_latency(TimeSpan::from_millis(5));
    assert_eq!(m.improvement_factor(), Ratio { numer: 0, denom: 1 });
    assert_eq!(value(m.improvement_factor()), 0.0);
}

#[test]
fn improvement_factor_with_cached_latencies_below_a_micro_is_one() {
    let mut m = CacheMetrics::new();
    m.record_cached_latency(TimeSpan::new(0, 400));
    m.record_uncached_latency(TimeSpan::from_millis(5));
    assert_eq!(m.cached_count, 1);
    assert_eq!(value(m.improvement_factor()), 1.0);
    let mut n = CacheMetrics::new();
    n.record_cached_latency(TimeSpan::new(0, 400));
    assert_eq!(value(n.improvement_factor()), 1.0);
}

#[test]
fn improvement_factor_with_uncached_latencies_below_a_micro_is_zero() {
    let mut m = CacheMetrics::new();
    m.record_cached_latency(TimeSpan::from_millis(5));
    m.record_uncached_latency(TimeSpan::new(0, 999));
    assert_eq!(value(m.improvement_factor()), 0.0);
}

#[test]
fn improvement_factor_is_the_quotient_of_the_averages() {
    let mut m = CacheMetrics::new();
    m.record_cached_latency(TimeSpan::from_millis(2));
    m.record_cached_latency(TimeSpan::from_millis(4));
    m.record_uncached_latency(TimeSpan::from_millis(30));
    // uncached mean 30000 us, cached mean 3000 us
    assert_eq!(m.improvement_factor(), Ratio { numer: 60_000, denom: 6_000 });
    assert_eq!(value(m.improvement_factor()), 10.0);
}
