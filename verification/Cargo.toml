[package]
name = "json_sync"
version = "0.1.0"
edition = "2021"
publish = false

[dependencies]
dashmap = "*"
parking_lot = "*"
serde = "*"
serde_json = { version = "*", features = ["float_roundtrip"] }
shardmap = "*"
