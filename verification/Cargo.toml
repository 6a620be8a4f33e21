[package]
name = "ansible_forge"
version = "0.2.0"
edition = "2021"
publish = false

[dependencies]
iac-forge = "=0.1.6"
toml = "=0.8.23"
