[package]
name = "azure_hl"
version = "0.1.0"
edition = "2021"
publish = false

[dependencies]
euclid = "=0.22.14"
libc = "=0.2.191"
