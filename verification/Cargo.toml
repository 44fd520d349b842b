[package]
name = "vault"
version = "0.1.0"
edition = "2021"
publish = false

[dependencies]
solana-program = "~1.6"
spl-token = { version = "~3.1", features = ["no-entrypoint"] }
thiserror = "1.0"
