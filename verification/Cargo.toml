[package]
name = "bee_core"
version = "0.1.0"
edition = "2021"
publish = false

[dependencies]
async-trait = "=0.1.92"
bee-crypto = "=0.3.0"
bee-ledger = { version = "=0.6.1", features = ["workers"] }
bee-runtime = "=0.1.1-alpha"
bee-tangle = "=0.2.0"
bee-ternary = "=0.5.2"
futures = "=0.3.34"
log = "=0.4.34"
rand = "=0.8.8"
serde = { version = "=1.0.229", features = ["derive"] }
serde_json = "=1.0.154"
tokio = { version = "=1.54.1", features = ["sync", "rt"] }
tokio-stream = "=0.1.19"
warp = "=0.3.7"
