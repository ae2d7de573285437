[package]
name = "klip_core"
version = "0.1.0"
edition = "2021"
publish = false

[dependencies]
mp4 = "*"
png = "*"
image = { version = "*", default-features = false, features = ["png", "jpeg"] }
