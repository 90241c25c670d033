[package]
name = "codex_core"
version = "0.1.0"
edition = "2021"
publish = false

[dependencies]
serde_json = "1"
rand = "0.9"
tokio = { version = "1", default-features = false, features = ["rt", "sync", "time", "macros"] }
reqwest = { version = "0.12", default-features = false, features = ["stream"] }
futures = "0.3"
