[package]
name = "trustline_sdk"
version = "0.1.0"
edition = "2021"
publish = false

[dependencies]
soroban-sdk = "=27.0.6"

[dev-dependencies]
soroban-sdk = { version = "=27.0.6", features = ["testutils"] }
