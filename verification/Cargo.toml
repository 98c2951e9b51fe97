[package]
name = "lendity_fi"
version = "0.1.0"
edition = "2021"
publish = false

[dependencies]
pyth-solana-receiver-sdk = "*"
