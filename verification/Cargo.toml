[package]
name = "wm"
version = "0.1.0"
edition = "2021"
publish = false

[dependencies]
unicode-normalization = "0.1"
glium = "0.30"
rusttype = "0.9"
