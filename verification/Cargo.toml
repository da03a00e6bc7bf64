[package]
name = "transaction_status"
version = "0.1.0"
edition = "2021"
publish = false

[dependencies]
base64 = "0.12"
bincode = "1.3"
bs58 = "0.3"
lazy_static = "1.4"
serde = { version = "1.0", features = ["derive"] }
serde_derive = "1.0"
serde_json = "1.0"
solana-sdk = "~1.3"
