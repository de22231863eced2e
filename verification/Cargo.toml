[package]
name = "buspirate_hal"
version = "0.1.0"
edition = "2021"
publish = false

[dependencies]
bit_field = "0.10"
cobs = "*"
embedded-hal = "1"
flatbuffers = "*"
serialport = { version = "4", default-features = false }
