[package]
name = "aspect_ratio"
version = "0.1.0"
edition = "2021"
publish = false

[dependencies]
safe-arithmetic = "*"
strum = { version = "*", features = ["derive"] }
