[package]
name = "escrowq32026"
version = "0.1.0"
edition = "2021"
publish = false

[dependencies]
anchor-lang = { version = "=1.2.2", features = ["init-if-needed"] }
anchor-spl = { version = "=1.2.2", default-features = false, features = ["solana-v3", "token", "token_2022", "associated_token", "mint"] }
