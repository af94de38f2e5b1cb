[package]
name = "ferrite_forward"
version = "0.1.0"
edition = "2021"
publish = false

[dependencies]
anyhow = "1"
objc2 = "0.6"
objc2-foundation = "0.3"
objc2-metal = "0.3"
