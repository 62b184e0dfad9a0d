[package]
name = "ptstd"
version = "0.1.0"
edition = "2021"
publish = false

[dependencies]
rust-crypto = "=0.2.36"
rsa = "=0.6.1"
rand = "=0.8.8"
chrono = "=0.4.45"
log = { version = "=0.4.34", features = ["std"] }
ndarray = "=0.15.6"
