[package]
name = "coin_flip"
version = "0.1.0"
edition = "2021"
publish = false

[dependencies]
anchor-lang = { version = "=1.2.1", features = ["init-if-needed"] }
anchor-spl = { version = "=1.2.1", default-features = false, features = ["token", "solana-v3"] }
solana-pubkey = { version = "=3.0.0", features = ["curve25519"] }
