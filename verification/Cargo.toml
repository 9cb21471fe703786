[package]
name = "restream"
version = "0.1.0"
edition = "2021"
publish = false

[dependencies]
anyhow = "1"
async-stream = "0.3"
lazy_static = "1"
log = "0.4"
regex = "1"
serde = { version = "1", features = ["derive"] }
tokio = { version = "1", features = ["sync", "time", "rt-multi-thread", "macros"] }
tokio-stream = { version = "0.1", features = ["sync"] }
tokio-util = { version = "0.7", features = ["rt"] }
validator = { version = "0.20", features = ["derive"] }
validator_derive = "0.20"
