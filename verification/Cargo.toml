[package]
name = "sfe"
version = "0.1.0"
edition = "2021"
publish = false

[dependencies]
memmap = "0.7"
rpassword = "7"
