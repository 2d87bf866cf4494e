[package]
name = "robosock"
version = "0.1.0"
edition = "2021"
publish = false

[dependencies]
tokio = { version = "*", features = ["net", "fs", "rt", "rt-multi-thread", "macros"] }
anyhow = "*"
thiserror = "*"
tracing = "*"
tracing-subscriber = "*"
