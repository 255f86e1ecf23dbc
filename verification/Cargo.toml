[package]
name = "stable_dira"
version = "0.1.0"
edition = "2021"
publish = false

[dependencies]
cosmwasm-std = "2"
cosmwasm-schema = "2"
cw2 = "2"
cw20 = "2"
cw-storage-plus = "2"
schemars = "0.8"
serde = { version = "1", features = ["derive"] }
thiserror = "1"
