[package]
name = "mono-chain-beep"
version = "0.1.0"
edition = "2021"
publish = false

[dependencies]
cosmwasm-std = "2.1"
cw-storage-plus = "2.0"
cw2 = "2.0"
cw20 = "2.0"
sha2 = "0.10"
hex = "0.4"
serde = { version = "1", default-features = false, features = ["derive"] }
