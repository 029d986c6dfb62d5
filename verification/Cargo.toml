[package]
name = "minefield"
version = "0.1.0"
edition = "2021"
publish = false

[dependencies]
cosmwasm-std = "0.10"
cosmwasm-storage = "0.10"
rand = { version = "0.7", default-features = false }
rand_chacha = "0.2"
schemars = "0.7"
serde = { version = "1.0", default-features = false, features = ["derive"] }
sha2 = "0.9"
