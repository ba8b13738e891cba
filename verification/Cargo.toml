[package]
name = "panacea_escrow"
version = "0.1.0"
edition = "2021"
publish = false

[dependencies]
cosmwasm-std = "0.14"
cosmwasm-storage = "0.14"
cw-storage-plus = "0.6"
cw721 = "0.6"
cw721-base = { version = "0.6", features = ["library"] }
schemars = "0.8"
serde = { version = "1", default-features = false, features = ["derive"] }
thiserror = "1"
