[package]
name = "node_crunch"
version = "0.1.0"
edition = "2021"
publish = false

[dependencies]
tokio = { version = "1", features = ["net", "io-util", "rt-multi-thread", "time", "macros", "sync"] }
log = "0.4"
