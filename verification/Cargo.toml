[package]
name = "holderscan_dca"
version = "0.1.0"
edition = "2021"
publish = false

[dependencies]
anchor-lang = "=1.2.2"
anchor-spl = { version = "=1.2.2", default-features = false, features = ["token", "token_2022", "solana-v3"] }
