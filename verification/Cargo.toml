[package]
name = "saea"
version = "0.1.0"
edition = "2021"
publish = false

[dependencies]
anchor-lang = "=0.31.2"
solana-sha256-hasher = { version = "=3.1.0", features = ["sha2"] }
