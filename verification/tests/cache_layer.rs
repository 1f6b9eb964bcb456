use contract_cache::{CacheConfig, CacheLayer, EvictionPolicy, TimeSpan};
use std::time::{Duration, Instant};

fn wait(duration: Duration) {
    let start = Instant::now();
    while start.elapsed() < duration {
        std::hint::spin_loop();
    }
}

fn lru_config(max_capacity: u64, global_ttl: TimeSpan) -> CacheConfig {
    CacheConfig { enabled: true, policy: EvictionPolicy::Lru, global_ttl, max_capacity }
}

#[test]
fn test_basic_flow() {
    let config = CacheConfig {
        enabled: true,
        policy: EvictionPolicy::Lfu,
        global_ttl: TimeSpan::from_secs(60),
        max_capacity: 100,
    };
    let mut cache = CacheLayer::new(config);

    cache.put("c1", "k1", "v1".to_string(), None);

    let val = cache.get("c1", "k1");
    assert_eq!(val, Some("v1".to_string()));

    // Miss
    let val2 = cache.get("c1", "k2");
    assert!(val2.is_none());
}

#[test]
fn test_invalidation() {
    let config = CacheConfig::default();
    let mut cache = CacheLayer::new(config);

    cache.put("c1", "k1", "v1".to_string(), None);
    cache.invalidate("c1", "k1");

    let val = cache.get("c1", "k1");
    assert!(val.is_none());
}

#[test]
fn test_ttl_lru() {
    let config = CacheConfig {
        enabled: true,
        policy: EvictionPolicy::Lru,
        global_ttl: TimeSpan::from_millis(50), // Short TTL
        max_capacity: 100,
    };
    let mut cache = CacheLayer::new(config);

    cache.put("c1", "k1", "v1".to_string(), None);

    // Immediate get
    assert_eq!(cache.get("c1", "k1"), Some("v1".to_string()));

    // Wait for expiration
    wait(Duration::from_millis(100));

    // Should be expired
    assert!(cache.get("c1", "k1").is_none());
}

#[test]
fn test_metrics() {
    let config = CacheConfig::default();
    let mut cache = CacheLayer::new(config);

    cache.put("c1", "k1", "v1".to_string(), None);

    cache.get("c1", "k1"); // Hit
    cache.get("c1", "k2"); // Miss

    let m = cache.metrics();
    assert_eq!(m.hits, 1);
    assert_eq!(m.misses, 1);
    let rate = m.hit_rate();
    assert_eq!(rate.numer as f64 / rate.denom as f64, 50.0);
}

#[test]
fn test_disabled() {
    let config = CacheConfig { enabled: false, ..CacheConfig::default() };
    let mut cache = CacheLayer::new(config);

    cache.put("c1", "k1", "v1".to_string(), None);
    assert!(cache.get("c1", "k1").is_none());
}

#[test]
fn default_config_is_enabled_lfu_60s_10000() {
    let config = CacheConfig::default();
    assert!(config.enabled);
    assert_eq!(config.policy, EvictionPolicy::Lfu);
    assert_eq!(config.global_ttl.as_nanos(), 60_000_000_000);
    assert_eq!(config.max_capacity, 10_000);
}

#[test]
fn layer_keeps_its_config() {
    let config = lru_config(7, TimeSpan::from_millis(1500));
    let cache = CacheLayer::new(config);
    assert!(cache.config().enabled);
    assert_eq!(cache.config().policy, EvictionPolicy::Lru);
    assert_eq!(cache.config().max_capacity, 7);
    assert_eq!(cache.config().global_ttl.as_nanos(), 1_500_000_000);
}

#[test]
fn put_then_get_returns_value_lru() {
    let mut cache = CacheLayer::new(lru_config(100, TimeSpan::from_secs(60)));
    cache.put("c1", "k1", "v1".to_string(), None);
    assert_eq!(cache.get("c1", "k1"), Some("v1".to_string()));
    cache.put("c1", "k1", "v2".to_string(), None);
    assert_eq!(cache.get("c1", "k1"), Some("v2".to_string()));
}

#[test]
fn put_then_get_returns_value_lfu() {
    let mut cache = CacheLayer::new(CacheConfig::default());
    cache.put("c1", "k1", "v1".to_string(), None);
    assert_eq!(cache.get("c1", "k1"), Some("v1".to_string()));
    cache.put("c1", "k1", "v2".to_string(), None);
    assert_eq!(cache.get("c1", "k1"), Some("v2".to_string()));
}

#[test]
fn get_of_unwritten_key_counts_one_miss() {
    for policy in [EvictionPolicy::Lru, EvictionPolicy::Lfu] {
        let config = CacheConfig { policy, ..CacheConfig::default() };
        let mut cache = CacheLayer::new(config);
        cache.put("c1", "k1", "v1".to_string(), None);
        let before = *cache.metrics();
        assert!(cache.get("c1", "other").is_none());
        let after = *cache.metrics();
        assert_eq!(after.misses, before.misses + 1);
        assert_eq!(after.hits, before.hits);
        assert_eq!(after.cached_count, before.cached_count);
        assert_eq!(after.cached_latency_sum_micros, before.cached_latency_sum_micros);
    }
}

#[test]
fn hit_counts_one_hit_and_one_latency() {
    for policy in [EvictionPolicy::Lru, EvictionPolicy::Lfu] {
        let config = CacheConfig { policy, ..CacheConfig::default() };
        let mut cache = CacheLayer::new(config);
        cache.put("c1", "k1", "v1".to_string(), None);
        assert!(cache.get("c1", "k1").is_some());
        let m = cache.metrics();
        assert_eq!(m.hits, 1);
        assert_eq!(m.misses, 0);
        assert_eq!(m.cached_count, 1);
        assert_eq!(m.uncached_count, 0);
    }
}

#[test]
fn invalidate_after_put_is_a_miss_lru() {
    let mut cache = CacheLayer::new(lru_config(100, TimeSpan::from_secs(60)));
    cache.put("c1", "k1", "v1".to_string(), None);
    cache.put("c1", "k2", "v2".to_string(), None);
    cache.invalidate("c1", "k1");
    assert!(cache.get("c1", "k1").is_none());
    assert_eq!(cache.get("c1", "k2"), Some("v2".to_string()));
    assert_eq!(cache.metrics().misses, 1);
    assert_eq!(cache.metrics().hits, 1);
}

#[test]
fn invalidate_of_absent_key_changes_nothing() {
    for policy in [EvictionPolicy::Lru, EvictionPolicy::Lfu] {
        let config = CacheConfig { policy, ..CacheConfig::default() };
        let mut cache = CacheLayer::new(config);
        cache.put("c1", "k1", "v1".to_string(), None);
        cache.invalidate("c1", "nothing");
        assert_eq!(cache.get("c1", "k1"), Some("v1".to_string()));
    }
}

#[test]
fn disabled_layer_touches_no_counter() {
    for policy in [EvictionPolicy::Lru, EvictionPolicy::Lfu] {
        let config = CacheConfig { enabled: false, policy, ..CacheConfig::default() };
        let mut cache = CacheLayer::new(config);
        cache.put("c1", "k1", "v1".to_string(), None);
        assert!(cache.get("c1", "k1").is_none());
        cache.invalidate("c1", "k1");
        assert!(cache.get("c1", "k1").is_none());
        let m = cache.metrics();
        assert_eq!(m.hits, 0);
        assert_eq!(m.misses, 0);
        assert_eq!(m.cached_count, 0);
    }
}

#[test]
fn disabled_layer_still_records_uncached_latency() {
    let config = CacheConfig { enabled: false, ..CacheConfig::default() };
    let mut cache = CacheLayer::new(config);
    cache.record_uncached_latency(TimeSpan::from_millis(3));
    assert_eq!(cache.metrics().uncached_count, 1);
    assert_eq!(cache.metrics().uncached_latency_sum_micros, 3000);
}

#[test]
fn record_uncached_latency_adds_micros() {
    for policy in [EvictionPolicy::Lru, EvictionPolicy::Lfu] {
        let config = CacheConfig { policy, ..CacheConfig::default() };
        let mut cache = CacheLayer::new(config);
        cache.record_uncached_latency(TimeSpan::from_millis(2));
        cache.record_uncached_latency(TimeSpan::new(0, 1_999));
        let m = cache.metrics();
        assert_eq!(m.uncached_count, 2);
        assert_eq!(m.uncached_latency_sum_micros, 2001);
        assert_eq!(m.cached_count, 0);
        let mean = m.avg_uncached_latency();
        assert_eq!(mean.numer as f64 / mean.denom as f64, 1000.5);
    }
}

#[test]
fn ttl_override_of_50_ms_expires_lru() {
    let mut cache = CacheLayer::new(lru_config(100, TimeSpan::from_secs(60)));
    cache.put("c1", "k1", "v1".to_string(), Some(TimeSpan::from_millis(50)));
    cache.put("c1", "k2", "v2".to_string(), None);
    assert_eq!(cache.get("c1", "k1"), Some("v1".to_string()));
    wait(Duration::from_millis(100));
    assert!(cache.get("c1", "k1").is_none());
    assert_eq!(cache.get("c1", "k2"), Some("v2".to_string()));
}

#[test]
fn ttl_override_is_not_heeded_by_lfu() {
    let mut cache = CacheLayer::new(CacheConfig::default());
    cache.put("c1", "k1", "v1".to_string(), Some(TimeSpan::from_millis(20)));
    wait(Duration::from_millis(60));
    assert_eq!(cache.get("c1", "k1"), Some("v1".to_string()));
}

#[test]
fn global_ttl_expires_lfu() {
    let config = CacheConfig {
        enabled: true,
        policy: EvictionPolicy::Lfu,
        global_ttl: TimeSpan::from_millis(50),
        max_capacity: 100,
    };
    let mut cache = CacheLayer::new(config);
    cache.put("c1", "k1", "v1".to_string(), None);
    assert_eq!(cache.get("c1", "k1"), Some("v1".to_string()));
    wait(Duration::from_millis(100));
    assert!(cache.get("c1", "k1").is_none());
}

#[test]
fn lru_capacity_plus_one_evicts_least_recently_used() {
    let max_capacity = 5u64;
    let mut cache = CacheLayer::new(lru_config(max_capacity, TimeSpan::from_secs(60)));
    for i in 0..=max_capacity {
        cache.put("c1", &format!("k{}", i), format!("v{}", i), None);
    }
    assert!(cache.get("c1", "k0").is_none());
    for i in 1..=max_capacity {
        assert_eq!(cache.get("c1", &format!("k{}", i)), Some(format!("v{}", i)));
    }
}

#[test]
fn lru_get_protects_an_entry_from_eviction() {
    let mut cache = CacheLayer::new(lru_config(2, TimeSpan::from_secs(60)));
    cache.put("c1", "a", "1".to_string(), None);
    cache.put("c1", "b", "2".to_string(), None);
    assert_eq!(cache.get("c1", "a"), Some("1".to_string()));
    cache.put("c1", "c", "3".to_string(), None);
    assert!(cache.get("c1", "b").is_none());
    assert_eq!(cache.get("c1", "a"), Some("1".to_string()));
    assert_eq!(cache.get("c1", "c"), Some("3".to_string()));
}

#[test]
fn namespaces_do_not_collide() {
    for policy in [EvictionPolicy::Lru, EvictionPolicy::Lfu] {
        let config = CacheConfig { policy, ..CacheConfig::default() };
        let mut cache = CacheLayer::new(config);
        cache.put("a:b", "c", "first".to_string(), None);
        cache.put("a", "b:c", "second".to_string(), None);
        assert_eq!(cache.get("a:b", "c"), Some("first".to_string()));
        assert_eq!(cache.get("a", "b:c"), Some("second".to_string()));
        cache.invalidate("a:b", "c");
        assert!(cache.get("a:b", "c").is_none());
        assert_eq!(cache.get("a", "b:c"), Some("second".to_string()));
    }
}
