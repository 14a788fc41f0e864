[package]
name = "rtmp_cache"
version = "0.1.0"
edition = "2021"
publish = false

[dependencies]
bytes = "=1.12.1"
xflv = "=0.2.1"
