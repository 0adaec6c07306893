[package]
name = "quick_m3u8"
version = "0.1.0"
edition = "2021"
publish = false

[dependencies]
memchr = "=2.8.3"
fast-float2 = "*"
