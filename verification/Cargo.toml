[package]
name = "ctr_drbg"
version = "0.1.0"
edition = "2021"
publish = false

[dependencies]
aes = { version = "=0.8.4", features = ["zeroize"] }
zeroize = "=1.9.1"
