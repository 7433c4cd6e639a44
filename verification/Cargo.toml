[package]
name = "nfqueue"
version = "0.9.1"
edition = "2021"
publish = false

[dependencies]
libc = "0.2"
