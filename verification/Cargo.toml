[package]
name = "miden_air_verified"
version = "0.1.0"
edition = "2021"
publish = false

[dependencies]
miden-core = "*"
miden-crypto = "*"
