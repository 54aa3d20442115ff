[package]
name = "vault"
version = "0.1.0"
edition = "2021"
publish = false

[dependencies]
cosmwasm-schema = "1.1"
cosmwasm-std = "1.1"
cw-storage-plus = "1.0"
cw2 = "1.0"
osmosis-std = "0.12"
thiserror = "1.0"
