[package]
name = "ylab"
version = "0.1.0"
edition = "2021"
publish = false

[dependencies]
heapless = "0.8"
embassy-sync = "*"
embassy-time = "*"
embassy-futures = "*"
log = "0.4"
