[package]
name = "diskmap"
version = "0.1.0"
edition = "2021"
publish = false

[dependencies]
advisory-lock = "*"
serde = { version = "*", features = ["derive"] }
serde_cbor = "*"
