[package]
name = "pi_contracts"
version = "0.1.0"
edition = "2021"
publish = false

[dependencies]
soroban-sdk = { version = "=23.5.3", features = ["hazmat-address"] }
rand = "=0.8.8"
rsa = "=0.8.2"
sha3 = "=0.10.9"
num-bigint = "=0.4.8"
