[package]
name = "core-animation"
version = "0.1.0"
edition = "2021"
publish = false

[dependencies]
objc2-core-foundation = "*"
objc2-core-graphics = "*"
