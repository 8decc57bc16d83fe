[package]
name = "radix_oasis"
version = "0.1.0"
edition = "2021"
publish = false

[dependencies]
scrypto = "1"
serde = { version = "1", features = ["derive"] }
