[package]
name = "pong"
version = "0.1.0"
edition = "2021"
publish = false

[dependencies]
tetra = { version = "=0.5.8", default-features = false, features = ["texture_png"] }
