[package]
name = "ft_legacy"
version = "0.1.0"
edition = "2021"
publish = false

[dependencies]
coreum-wasm-sdk = "=1.2.1"
cosmwasm-schema = "=2.3.6"
cosmwasm-std = "=2.3.6"
cw2 = "=2.0.0"
cw-ownable = "=2.1.0"
cw-storage-plus = "=2.0.0"
thiserror = "=1.0.69"
