[package]
name = "protobuf"
version = "0.1.0"
edition = "2021"
publish = false

[dependencies]
serde = "1"

[dev-dependencies]
serde_json = "1"
