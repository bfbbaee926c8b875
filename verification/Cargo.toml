[package]
name = "ratchet_rng"
version = "0.1.0"
edition = "2021"
publish = false

[dependencies]
blake2 = "=0.10.6"
sha2 = "=0.10.9"
rand_chacha = "=0.3.1"
xoodyak = "=0.8.5"
serde = { version = "1", features = ["derive"] }
schemars = "0.7"
secret-cosmwasm-std = "=0.10.1"
