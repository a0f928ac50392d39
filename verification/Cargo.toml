[package]
name = "oracle_callback"
version = "0.1.0"
edition = "2021"
publish = false

[dependencies]
anchor-lang = "*"
ephemeral-rollups-sdk = "*"
solana-gpt-oracle = "*"
solana-program = "*"
