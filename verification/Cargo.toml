[package]
name = "ton_client"
version = "0.1.0"
edition = "2021"
publish = false

[dependencies]
async-trait = "0.1"
failure = "0.1"
hex = "0.4"
serde = { version = "1", features = ["derive"] }
serde_json = "1"
zeroize = { version = "1", features = ["derive"] }
