[package]
name = "suss"
version = "0.1.0"
edition = "2021"
publish = false

[dependencies]
nanorand = "*"
humantime = "*"
async-trait = "*"
futures-lite = "*"
