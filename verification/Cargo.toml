[package]
name = "rust_kvstore"
version = "0.1.0"
edition = "2021"
publish = false

[dependencies]
snow = "*"
dashmap = "*"
tokio = { version = "1", features = ["rt-multi-thread", "net", "io-util", "macros", "sync", "time"] }
tokio-util = { version = "*", features = ["codec"] }
bytes = "*"
futures = "*"
anyhow = "*"
tracing = "*"
tracing-subscriber = { version = "*", features = ["env-filter"] }
