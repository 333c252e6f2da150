[package]
name = "posh"
version = "0.1.0"
edition = "2021"
publish = false

[dependencies]
uuid = { version = "1", features = ["v4"] }
glow = "*"
mint = "0.5"
bytemuck = "1"
crevice = "*"
