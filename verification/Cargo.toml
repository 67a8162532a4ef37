[package]
name = "euler_curve"
version = "0.1.0"
edition = "2021"
publish = false

[dependencies]
mint = "*"
num = "*"

[dependencies.ggez]
version = "*"
default-features = false
