[package]
name = "rustirc"
version = "0.1.0"
edition = "2021"
publish = false

[dependencies]
ctrlc = "*"
getopts = "*"
lua = "*"
toml = "*"
