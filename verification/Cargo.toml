[package]
name = "chain_spec"
version = "0.1.0"
edition = "2021"
publish = false

[dependencies]
sp-core = "=43.0.0"
sp-consensus-babe = "*"
sp-consensus-grandpa = "*"
