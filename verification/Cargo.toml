[package]
name = "obliqoro"
version = "0.1.0"
edition = "2021"
publish = false

[dependencies]
rand = "0.9"
sysinfo = "*"
tokio = { version = "1", features = ["rt-multi-thread", "sync", "time", "macros"] }
