[package]
name = "shard_ledger"
version = "0.1.0"
edition = "2021"
publish = false

[dependencies]
base64 = "0.13"
tokio = { version = "1", features = ["sync", "rt"] }
