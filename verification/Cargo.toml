[package]
name = "swarm_handshake"
version = "0.1.0"
edition = "2021"
publish = false

[dependencies]
alloy-primitives = "0.7"
alloy-signer = "0.1"
alloy-signer-local = "0.1"
multiaddr = "0.18"
eyre = "0.6"
futures = "0.3"
prost = "0.12"
tokio = { version = "1", features = ["macros", "rt-multi-thread"] }
tracing = "0.1"
tracing-subscriber = { version = "0.3", features = ["env-filter"] }
thiserror = "1"
