[package]
name = "definition_registry"
version = "0.1.0"
edition = "2021"
publish = false

[dependencies]
soroban-sdk = { version = "29", features = ["testutils"] }
soroban-env-host = { version = "29", features = ["testutils"] }
