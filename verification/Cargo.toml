[package]
name = "atomic_swap"
version = "0.1.0"
edition = "2021"
publish = false

[dependencies]
cosmwasm-std = "0.10"
cosmwasm-storage = "0.10"
cw0 = "0.2"
cw2 = "0.2"
hex = "0.3.1"
schemars = "0.7"
serde = { version = "1.0", default-features = false, features = ["derive"] }
sha2 = "0.8.1"
