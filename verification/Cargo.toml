[package]
name = "bitwuzla"
version = "0.1.0"
edition = "2021"
publish = false

[dependencies]
bitwuzla-sys = "*"
libc = "0.2"
