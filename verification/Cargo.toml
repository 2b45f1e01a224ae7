[package]
name = "env_monitor"
version = "0.1.0"
edition = "2021"

[dependencies]
rppal = "*"
tokio = { version = "1", features = ["rt", "time"] }
async-trait = "0.1"
