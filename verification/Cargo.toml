[package]
name = "poetry_to_requirements"
version = "0.1.0"
edition = "2021"
publish = false

[dependencies]
toml = "*"
structopt = "*"
