[package]
name = "fixed_price_auction"
version = "0.1.0"
edition = "2021"
publish = false

[dependencies]
soroban-sdk = { version = "*", features = ["testutils"] }
