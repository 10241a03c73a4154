[package]
name = "rdlock"
version = "0.1.0"
edition = "2021"
publish = false

[dependencies]
redis = { version = "=0.27.6", features = ["tokio-comp", "aio", "connection-manager"] }
bb8-redis = "=0.17.0"
tokio = { version = "=1.54.1", features = ["macros", "rt-multi-thread", "time", "sync"] }
tokio-stream = "=0.1.19"
