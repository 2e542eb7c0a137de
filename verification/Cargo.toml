[package]
name = "ethereum_consensus_module"
version = "0.1.0"
edition = "2021"
publish = false

[dependencies]
alloy = { version = "0.8", default-features = false, features = ["providers", "provider-http", "rpc-types", "eips", "transports", "reqwest"] }
jsonrpsee = { version = "0.24", features = ["server"] }
serde = { version = "1", features = ["derive"] }
tokio = { version = "1", features = ["macros", "rt-multi-thread"] }
tracing = "0.1"
