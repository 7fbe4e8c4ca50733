[package]
name = "hash_miner"
version = "0.3.0"
edition = "2021"
publish = false

[dependencies]
alloy = { version = "=0.3.6", default-features = false, features = ["contract", "provider-http", "reqwest-rustls-tls", "signer-local"] }
dotenvy = "=0.15.7"
eyre = { version = "0.6", default-features = false }
rand = "=0.8.8"
reqwest = { version = "=0.12.28", default-features = false, features = ["json", "rustls-tls"] }
serde = { version = "=1.0.229", features = ["derive"] }
serde_json = "=1.0.154"
tokio = { version = "=1.54.1", features = ["macros", "rt-multi-thread", "signal", "time"] }
