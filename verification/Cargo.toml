[package]
name = "soroban_forge"
version = "0.1.0"
edition = "2021"
publish = false

[dependencies]
soroban-sdk = { version = "=27.0.6", features = ["hazmat-address"] }
