[package]
name = "jsonl"
version = "0.1.0"
edition = "2021"
publish = false

[dependencies]
serde = "1"
serde_json = { version = "1", features = ["preserve_order"] }
tokio = { version = "1", features = ["io-util", "io-std", "net", "process"] }
parking_lot = "*"
mio = { version = "*", features = ["net", "os-poll"] }
thiserror = "*"
