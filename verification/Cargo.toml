[package]
name = "transfer_hook"
version = "0.1.0"
edition = "2021"
publish = false

[dependencies]
anchor-lang = "=1.2.1"
anchor-spl = { version = "=1.2.1", default-features = false, features = ["solana-v3", "token_2022"] }
spl-tlv-account-resolution = "=0.11.4"
spl-transfer-hook-interface = "=2.1.0"
