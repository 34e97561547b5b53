[package]
name = "commonsdl"
version = "0.1.0"
edition = "2021"
publish = false

[dependencies]
anyhow = "1"
sdl2-sys = { version = "*", features = ["image"] }
