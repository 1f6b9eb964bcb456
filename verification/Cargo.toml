[package]
name = "contract_cache"
version = "0.1.0"
edition = "2021"
publish = false

[dependencies]
lru = "*"
moka = { version = "0.12", default-features = false, features = ["sync"] }
tokio = { version = "1", default-features = false, features = ["sync"] }
async-trait = "0.1"
