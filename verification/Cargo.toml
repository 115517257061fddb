[package]
name = "token_sale"
version = "0.1.0"
edition = "2021"
publish = false

[dependencies]
cosmwasm-schema = "1"
cosmwasm-std = "1"
cw-storage-plus = "1"
cw-utils = "1"
cw-asset = "3"
cw20 = "1"
thiserror = "1"
