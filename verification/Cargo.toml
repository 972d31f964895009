[package]
name = "drift_sdk"
version = "0.1.0"
edition = "2021"
publish = false

[dependencies]
solana-sdk = "*"
spl-token = "*"
spl-associated-token-account = "*"
base64 = "*"
shellexpand = "*"
