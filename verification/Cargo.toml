[package]
name = "rust_sync_force"
version = "0.1.0"
edition = "2021"
publish = false

[dependencies]
serde_json = "1"
ureq = "2"
