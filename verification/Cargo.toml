[package]
name = "diskcache"
version = "0.1.0"
edition = "2021"
publish = false

[dependencies]
xxhash-rust = { version = "*", features = ["xxh3"] }
faster-hex = "*"
crossbeam = "*"
pidlock = "*"
thiserror = "*"
tokio = { version = "*", features = ["sync"] }
