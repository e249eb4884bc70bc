[package]
name = "headlight"
version = "0.1.0"
edition = "2021"
publish = false

[dependencies]
crc = "=3.4.0"
heapless = "=0.8.0"
embedded-io-async = "=0.6.1"
embassy-sync = "=0.6.2"
embassy-time = "=0.3.2"
