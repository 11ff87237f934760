[package]
name = "text_bitmap"
version = "0.1.0"
edition = "2021"
publish = false

[dependencies]
rayon = "1"
classicube-sys = "*"
tracing = "0.1"
