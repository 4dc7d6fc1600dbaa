[package]
name = "envsensor"
version = "0.1.0"
edition = "2021"
publish = false

[dependencies]
bus = "*"
chrono = "*"
crc = "*"
serialport = { version = "*", default-features = false }
