[package]
name = "buttplug"
version = "0.1.0"
edition = "2021"
publish = false

[dependencies]
async-trait = "0.1"
dashmap = "5"
futures = "0.3"
serde = { version = "1", features = ["derive"] }
serde_json = "1"
serialport = { version = "4", default-features = false }
tokio = { version = "1", default-features = false, features = ["sync", "rt", "time", "macros"] }
tokio-util = { version = "0.7", default-features = false }
tracing = "0.1"
