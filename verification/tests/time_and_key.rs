use contract_cache::{cache_key, CacheConfig, EvictionPolicy, TimeSpan};

#[test]
fn time_span_from_parts() {
    let span = TimeSpan::new(3, 250_000_000);
    assert_eq!(span.as_secs(), 3);
    assert_eq!(span.subsec_nanos(), 250_000_000);
    assert_eq!(span.as_nanos(), 3_250_000_000);
    assert_eq!(span.as_micros(), 3_250_000);
}

#[test]
fn time_span_from_secs() {
    let span = TimeSpan::from_secs(60);
    assert_eq!(span.as_secs(), 60);
    assert_eq!(span.subsec_nanos(), 0);
    assert_eq!(span.as_nanos(), 60_000_000_000);
}

#[test]
fn time_span_from_millis() {
    let span = TimeSpan::from_millis(1_050);
    assert_eq!(span.as_secs(), 1);
    assert_eq!(span.subsec_nanos(), 50_000_000);
    assert_eq!(span.as_nanos(), 1_050_000_000);
    assert_eq!(TimeSpan::from_millis(50).as_micros(), 50_000);
}

#[test]
fn time_span_extremes() {
    assert_eq!(TimeSpan::from_secs(0).as_nanos(), 0);
    let longest = TimeSpan::new(u64::MAX, 999_999_999);
    assert_eq!(longest.as_nanos(), u64::MAX as u128 * 1_000_000_000 + 999_999_999);
    assert_eq!(longest.as_micros(), u64::MAX as u128 * 1_000_000 + 999_999);
    assert_eq!(TimeSpan::from_millis(u64::MAX).as_nanos(), u64::MAX as u128 * 1_000_000);
    assert_eq!(TimeSpan::new(0, 999).as_micros(), 0);
}

#[test]
fn cache_key_has_length_prefix() {
    assert_eq!(cache_key("c1", "k1"), "2:c1:k1");
    assert_eq!(cache_key("", ""), "0::");
    assert_eq!(cache_key("contract-42", "balance"), "11:contract-42:balance");
    assert_eq!(cache_key("0123456789", ""), "10:0123456789:");
}

#[test]
fn cache_key_counts_characters() {
    assert_eq!(cache_key("é", "k"), "1:é:k");
    assert_eq!(cache_key("日本語", "キー"), "3:日本語:キー");
}

#[test]
fn cache_keys_of_distinct_pairs_differ() {
    assert_ne!(cache_key("a:b", "c"), cache_key("a", "b:c"));
    assert_ne!(cache_key("a", ""), cache_key("", "a"));
    assert_ne!(cache_key("1", "1:x"), cache_key("11", "x"));
    assert_ne!(cache_key("", "1:a:b"), cache_key("a", "b"));
    assert_eq!(cache_key("a", "b"), cache_key("a", "b"));
}

#[test]
fn config_validity() {
    let lru = |max_capacity: u64| CacheConfig {
        enabled: true,
        policy: EvictionPolicy::Lru,
        global_ttl: TimeSpan::from_secs(1),
        max_capacity,
    };
    assert!(!lru(0).is_valid());
    assert!(lru(1).is_valid());
    assert!(lru(10_000).is_valid());
    let lfu = |global_ttl: TimeSpan| CacheConfig {
        enabled: true,
        policy: EvictionPolicy::Lfu,
        global_ttl,
        max_capacity: 0,
    };
    let thousand_years: u64 = 1000 * 365 * 24 * 3600;
    assert!(lfu(TimeSpan::from_secs(thousand_years)).is_valid());
    assert!(!lfu(TimeSpan::new(thousand_years, 1)).is_valid());
    assert!(lfu(TimeSpan::from_secs(0)).is_valid());
    assert!(CacheConfig::default().is_valid());
    let lru_long = CacheConfig {
        enabled: false,
        policy: EvictionPolicy::Lru,
        global_ttl: TimeSpan::new(u64::MAX, 999_999_999),
        max_capacity: 1,
    };
    assert!(lru_long.is_valid());
}

#[test]
fn elapsed_since_measures_from_the_start() {
    let start = std::time::Instant::now();
    let first = contract_cache::clock::elapsed_since(&start);
    let mut second = contract_cache::clock::elapsed_since(&start);
    while second.as_nanos() < first.as_nanos() + 1_000_000 {
        second = contract_cache::clock::elapsed_since(&start);
    }
    assert!(second.as_nanos() >= first.as_nanos() + 1_000_000);
    assert!(second.as_nanos() <= start.elapsed().as_nanos());
    assert!(second.subsec_nanos() < 1_000_000_000);
}
