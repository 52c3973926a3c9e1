[package]
name = "burrito_minigames"
version = "0.1.0"
edition = "2021"
publish = false

[dependencies]
near-sdk = { version = "4.0.0", default-features = false }
serde_json = "1"
