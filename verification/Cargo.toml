[package]
name = "rover_link"
version = "0.1.0"
edition = "2021"
publish = false

[dependencies]
crc = "*"
serde_json = "*"
serial = "*"
