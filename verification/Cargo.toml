[package]
name = "timelapse_core"
version = "0.1.0"
edition = "2021"
publish = false

[dependencies]
chrono = "*"
hmac = "*"
sha2 = "*"
hex = "*"
base64 = "*"
