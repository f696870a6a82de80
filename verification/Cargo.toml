[package]
name = "quay_venue"
version = "0.1.0"
edition = "2021"
publish = false

[dependencies]
async-trait = "=0.1.92"
quay-sdk = "=0.0.6"
solana-account = "=2.2.1"
solana-instruction = "=2.3.3"
solana-pubkey = "=2.4.0"
solana-sdk-ids = "=2.2.1"
spl-associated-token-account = "=7.0.0"
