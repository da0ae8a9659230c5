[package]
name = "foundation"
version = "0.1.0"
edition = "2021"
publish = false

[dependencies]
bs58 = "0.5"
rand = "0.8"
thiserror = "1"
