[package]
name = "pwd_strength"
version = "0.1.0"
edition = "2021"
publish = false

[dependencies]
secrecy = "0.10"
thiserror = "2"
tokio = { version = "1", features = ["sync", "time"] }
tokio-util = "0.7"
tracing = "0.1"
