[package]
name = "thatsit"
version = "0.1.0"
edition = "2021"
publish = false

[dependencies]
crossterm = "0.27"
better-panic = "0.3"
