[package]
name = "brotli_stream"
version = "0.1.0"
edition = "2021"
publish = false

[dependencies]
brotli-sys = "0.3"
libc = "0.2"
