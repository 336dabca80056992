[package]
name = "callbacks_counter"
version = "0.1.0"
edition = "2021"
publish = false

[dependencies]
cosmwasm-std = { version = "2", features = ["stargate", "cosmwasm_2_1"] }
cw2 = "2"
cw-storage-plus = "2"
serde = { version = "1", features = ["derive"] }
