[package]
name = "render_core"
version = "0.1.0"
edition = "2021"
publish = false

[dependencies]
cgmath = "0.18"
gl = "0.14"
memoffset = "0.9"
