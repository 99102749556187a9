[package]
name = "litellm-rust"
version = "0.1.0"
edition = "2021"
publish = false

[dependencies]
serde_json = "1"
blake3 = "1"
axum = "*"
thiserror = "*"
