[package]
name = "secret_brawl"
version = "0.1.0"
edition = "2021"
publish = false

[dependencies]
secret-cosmwasm-std = "0.10"
secret-cosmwasm-storage = "0.10"
secret-toolkit = "0.3"
schemars = "0.7"
serde = { version = "1", features = ["derive"] }
sha2 = "0.9"
rand = "0.7"
rand_chacha = "0.2"
base64 = "0.12"
