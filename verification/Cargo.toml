[package]
name = "stream_consumer"
version = "0.1.0"
edition = "2021"
publish = false

[dependencies]
ockam_core = "=0.35.0"
serde = { version = "1", features = ["derive"] }
serde_bare = "=0.5.0"
