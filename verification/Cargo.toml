[package]
name = "assethook"
version = "0.1.0"
edition = "2021"
publish = false

[dependencies]
lazy_static = "1"
libc = "0.2"
libloading = "0.6"
memmap = "0.5"
regex = "1"
