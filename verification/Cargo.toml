[package]
name = "dynamixel"
version = "0.1.0"
edition = "2021"
publish = false

[dependencies]
bit_field = "0.9"
serialport = { version = "*", default-features = false }
