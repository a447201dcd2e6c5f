[package]
name = "lean_bridge"
version = "0.1.0"
edition = "2021"
publish = false

[dependencies]
libc = "0.2"
memoffset = "0.9"
crossbeam = "0.8"
