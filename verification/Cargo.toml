[package]
name = "yellowstone-filter"
version = "0.1.0"
edition = "2021"
publish = false

[dependencies]
agave-geyser-plugin-interface = "=2.3.13"
anyhow = "=1.0.104"
base64 = "=0.22.1"
bincode = "=1.3.3"
bs58 = "=0.5.1"
deepsize = "=0.2.0"
prost-types = "=0.13.5"
serde = { version = "=1.0.229", features = ["derive"] }
solana-sdk = "=2.3.1"
solana-transaction-status = "=2.3.13"
spl-token-2022 = { version = "=6.0.0", features = ["no-entrypoint"] }
thiserror = "=1.0.69"
