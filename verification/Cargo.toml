[package]
name = "oxillama_arch"
version = "0.1.0"
edition = "2021"
publish = false

[dev-dependencies]
half = "=2.7.1"
