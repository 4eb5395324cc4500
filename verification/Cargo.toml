[package]
name = "core_lifecycle"
version = "0.1.0"
edition = "2021"
publish = false

[dependencies]
compact_str = "*"
smartstring = "*"
tokio = { version = "*", features = ["rt-multi-thread", "macros", "time", "process", "io-util", "sync"] }
anyhow = "*"
scopeguard = "*"
log = "*"
