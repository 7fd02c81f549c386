[package]
name = "bridge_erc20"
version = "0.1.0"
edition = "2021"
publish = false

[dependencies]
bech32 = "=0.9.1"
hex = "=0.4.3"
schemars = "0.8"
cosmwasm-std = "=0.16.7"
cosmwasm-storage = "=0.16.7"
serde = { version = "1", features = ["derive"] }
