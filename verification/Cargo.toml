[package]
name = "microlife"
version = "0.1.0"
edition = "2021"
publish = false

[dependencies]
nanorand = "*"
microbit-v2 = "*"
embedded-hal = "*"
