[package]
name = "ledger_gateway"
version = "0.1.0"
edition = "2021"
publish = false

[dependencies]
solana-sdk = "1.18"
spl-token = "=4.0.0"
bs58 = "0.4"
base64 = "0.21"
actix-web = { version = "4", default-features = false, features = ["macros"] }
serde = { version = "1", features = ["derive"] }
