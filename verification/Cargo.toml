[package]
name = "ledger_digests"
version = "0.1.0"
edition = "2021"
publish = false

[dependencies]
fastcrypto = "*"
rand = "0.8"
bs58 = "*"
serde = { version = "1", features = ["derive"] }
schemars = "*"
