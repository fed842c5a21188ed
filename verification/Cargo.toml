[package]
name = "secret_wallet"
version = "0.1.0"
edition = "2021"
publish = false

[dependencies]
libsecp256k1 = "0.7"
sha3 = "0.10"
rand = "0.8"
