[package]
name = "rapax"
version = "0.1.0"
edition = "2021"
publish = false

[dependencies]
glow = "0.13"
