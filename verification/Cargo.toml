[package]
name = "cw_alliance_hub"
version = "0.1.0"
edition = "2021"
publish = false

[dependencies]
terra-proto-rs = "*"
cosmwasm-std = { version = "1", features = ["stargate", "staking"] }
cw-storage-plus = "1"
cw2 = "1"
cw721 = "0.18"
serde = { version = "1", features = ["derive"] }
thiserror = "1"
