[package]
name = "simplebgc"
version = "0.1.0"
edition = "2021"
publish = false

[dev-dependencies]
crc16 = "*"
