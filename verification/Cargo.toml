[package]
name = "sidecar_supervisor"
version = "0.1.0"
edition = "2021"
publish = false

[dependencies]
anyhow = "1"
reqwest = { version = "0.11", default-features = false }
serde_json = "1"
tokio = { version = "1", features = ["sync", "time", "rt-multi-thread"] }
