//! A cache for contract state in front of an expensive lookup. Values are
//! stored under a namespace and a key, by one of two backends: one that keeps
//! what is used often, with one lifetime for all entries, and one that keeps
//! what was used last, with a lifetime for each entry. The layer over them
//! can be switched off, and counts hits, misses and latencies.
//!
//! - `config`: the settings of a layer.
//! - `time`, `clock`: lengths of time, and readings of the monotonic clock.
//! - `key`: the composite key of a namespace and a key.
//! - `metrics`: the counters and the figures derived from them.
//! - `backend`: what every backend offers and owes.
//! - `slots`, `lru_store`, `lru_backend`: the exact-recency backend.
//! - `moka_store`, `lfu_backend`: the approximate-frequency backend.
//! - `layer`: the cache layer.
//! - `laws`: what holds across calls.
//!
//! Calls that change a cache take it by `&mut`: tasks that share one take
//! turns behind a lock of their own.

pub mod backend;
pub mod clock;
pub mod config;
pub mod key;
pub mod laws;
pub mod layer;
pub mod lfu_backend;
pub mod lru_backend;
pub mod lru_store;
pub mod metrics;
pub mod moka_store;
pub mod slots;
pub mod time;

pub use crate::backend::ContractStateCache;
pub use crate::config::{CacheConfig, EvictionPolicy};
pub use crate::key::cache_key;
pub use crate::layer::CacheLayer;
pub use crate::lfu_backend::MokaLfuCache;
pub use crate::lru_backend::LruCacheImpl;
pub use crate::metrics::{CacheMetrics, Ratio};
pub use crate::time::TimeSpan;
