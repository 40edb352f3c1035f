[package]
name = "token_wrapper"
version = "0.1.0"
edition = "2021"
publish = false

[dependencies]
solana-program = "1.18"
spl-token = { version = "4.0", default-features = false }
spl-token-2022 = { version = "1.0", default-features = false }
spl-associated-token-account = { version = "2.3", default-features = false }
