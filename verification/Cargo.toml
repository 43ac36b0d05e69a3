[package]
name = "black_anvil"
version = "0.1.0"
edition = "2021"
publish = false

[dependencies]
anyhow = "1"
dialoguer = "0.11"
toml = "0.8"
