[package]
name = "merger_contracts"
version = "0.1.0"
edition = "2021"
publish = false

[dependencies]
base64 = "0.21"
cosmwasm-schema = "2"
cosmwasm-std = "2"
cw-storage-plus = "2"
cw2 = "2"
cw20 = "2"
cw20-base = { version = "2", features = ["library"] }
polytone = "1"
serde_json = "1"
thiserror = "1"

[dev-dependencies]
cw-multi-test = "2"
