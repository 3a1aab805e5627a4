[package]
name = "atecc_keyslot"
version = "0.1.0"
edition = "2021"
publish = false

[dependencies]
parsec-interface = "*"
rust-cryptoauthlib = "*"
