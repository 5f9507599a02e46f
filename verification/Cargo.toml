[package]
name = "space_wurm"
version = "0.1.0"
edition = "2021"
publish = false

[dependencies]
rand = "0.9"
image = { version = "*", default-features = false, features = ["png"] }
minifb = "*"
