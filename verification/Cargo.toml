[package]
name = "fixed_price_nft"
version = "0.1.0"
edition = "2021"
publish = false

[dependencies]
cosmwasm-std = "=1.5.11"
cw-storage-plus = "1.2"
cw-utils = "=1.0.3"
cw2 = "=1.1.2"
cw721-base = { version = "=0.16.0", features = ["library"] }
serde = { version = "1", features = ["derive"] }
thiserror = "=1.0.69"
