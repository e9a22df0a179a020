[package]
name = "soroban_rand"
version = "0.1.0"
edition = "2021"
publish = false

[dependencies]
rand = { version = "=0.8.8", default-features = false, features = ["small_rng"] }
soroban-sdk = { version = "=29.0.1", features = ["hazmat-address"] }
