[package]
name = "defake_anchor"
version = "0.1.0"
edition = "2021"
publish = false

[dependencies]
near-sdk = "=5.1.0"
borsh = { version = "1", features = ["derive"] }
