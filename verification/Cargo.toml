[package]
name = "bary"
version = "0.1.0"
edition = "2021"
publish = false

[dependencies]
rand = "=0.8.8"
shellwords = "=1.1.0"
toml = "=0.8.23"
