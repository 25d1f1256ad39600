[package]
name = "draw2d_sketch"
version = "0.1.0"
edition = "2021"
publish = false

[dependencies]
cairo-rs = "*"
