[package]
name = "nats_client"
version = "0.1.0"
edition = "2021"
publish = false

[dependencies]
bytes = "=1.12.1"
nuid = "=0.6.0"
tokio = { version = "=1.53.2", features = ["sync", "rt-multi-thread"] }
