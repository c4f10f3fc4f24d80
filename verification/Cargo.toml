[package]
name = "eth2near_harness"
version = "0.1.0"
edition = "2021"
publish = false

[dependencies]
serde = { version = "=1.0.229", features = ["derive"] }
serde_json = "=1.0.151"
tokio = { version = "=1.53.2", features = ["rt", "rt-multi-thread"] }
workspaces = { version = "=0.7.0", default-features = false }
near-units = "=0.2.0"
