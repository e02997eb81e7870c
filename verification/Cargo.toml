[package]
name = "resource_manager"
version = "0.1.0"
edition = "2021"
publish = false

[dependencies]
anyhow = "1"
postgres = { version = "0.19", features = ["with-serde_json-1"] }
serde_json = "1"
