[package]
name = "fractional"
version = "0.1.0"
edition = "2021"
publish = false

[dependencies]
typenum = "=1.13.0"
const-default = "=1.0.0"
