[package]
name = "atdir"
version = "0.1.0"
edition = "2021"
publish = false

[dependencies]
cbuffer = "=0.1.3"
libc = "=0.2.191"
log = "=0.4.34"
