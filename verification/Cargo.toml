[package]
name = "globed_state"
version = "0.1.0"
edition = "2021"
publish = false

[dependencies]
parking_lot = "0.12"
tokio = { version = "1", features = ["rt-multi-thread", "macros", "sync", "time"] }
rocket = "0.5"
async-watcher = "*"
serde = { version = "1", features = ["derive"] }
serde_json = "1"
