[package]
name = "overwatch"
version = "0.1.0"
edition = "2021"
publish = false

[dependencies]
tokio = { version = "1", features = ["rt-multi-thread", "sync", "time"] }
futures = "0.3"
tracing = "0.1"
