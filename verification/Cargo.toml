[package]
name = "ftp"
version = "3.0.1"
edition = "2021"
publish = false

[dependencies]
openssl = "0.10"
regex = "1"
