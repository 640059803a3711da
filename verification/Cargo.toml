[package]
name = "node_identity"
version = "0.1.0"
edition = "2021"
publish = false

[dependencies]
rust-crypto = "=0.2.36"
rand = "=0.8.8"
sled = "=0.34.7"
