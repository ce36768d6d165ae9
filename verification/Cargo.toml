[package]
name = "utxo_engine"
version = "0.1.0"
edition = "2021"
publish = false

[dependencies]
bitcoin = "0.30"
secp256k1 = "0.27"
