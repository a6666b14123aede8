[package]
name = "ps_deflate"
version = "0.1.0"
edition = "2021"
publish = false

[dependencies]
libdeflater = "*"
ps-buffer = "=0.1.0-23"
thiserror = "*"
