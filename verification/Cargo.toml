[package]
name = "cache_reserve"
version = "0.1.0"
edition = "2021"
publish = false

[dependencies]
colored = "*"
serde = "*"
serde_json = "*"
tokio = { version = "*", features = ["macros", "rt", "rt-multi-thread", "sync", "time"] }
