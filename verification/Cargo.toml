[package]
name = "a2"
version = "0.1.0"
edition = "2021"
publish = false

[dependencies]
rust-argon2 = "*"
base64 = "*"
rand = "0.8"
num_cpus = "*"
