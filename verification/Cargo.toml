[package]
name = "render_host"
version = "0.1.0"
edition = "2021"
publish = false

[dependencies]
gl = "0.14"
glutin = "0.19"
cgmath = "0.17"
image = "0.23"
