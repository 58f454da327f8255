[package]
name = "flytrap"
version = "0.1.0"
edition = "2021"
publish = false

[dependencies]
arraydeque = "0.5"
bytes = "1"
dashmap = "5"
rand = "0.8"
tokio = { version = "1", features = ["net", "rt", "sync", "time", "macros"] }
