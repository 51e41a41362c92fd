[package]
name = "wild_faucet"
version = "0.1.0"
edition = "2021"
publish = false

[dependencies]
anchor-lang = { version = "=0.28.0", features = ["init-if-needed"] }
anchor-spl = { version = "=0.28.0", default-features = false, features = ["token", "associated_token", "token_2022"] }
