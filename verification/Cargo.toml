[package]
name = "cipher_fence"
version = "0.1.0"
edition = "2021"
publish = false

[dependencies]
iced = "0.14"
