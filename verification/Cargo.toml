[package]
name = "secure_credentials"
version = "0.1.0"
edition = "2021"
publish = false

[dependencies]
keyring = "3"
