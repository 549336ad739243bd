[package]
name = "speem"
version = "0.1.0"
edition = "2021"
publish = false

[dependencies]
ring = "0.17"
rsa = "0.9"
rand = "0.8"
bip39 = "2"
serde = { version = "1", features = ["derive"] }
serde_json = "1"
rusqlite = { version = "*", features = ["bundled"] }
uuid = { version = "1", features = ["v4"] }
