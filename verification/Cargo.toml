[package]
name = "coreum_fun"
version = "0.1.0"
edition = "2021"
publish = false

[dependencies]
cosmwasm-std = { version = "2", features = ["staking", "stargate", "cosmwasm_2_0"] }
cosmwasm-schema = "2"
cw-storage-plus = "2"
cw2 = "2"
cw-ownable = "2"
coreum-wasm-sdk = "*"
schemars = "0.8"
serde = { version = "1", features = ["derive"] }
thiserror = "1"
