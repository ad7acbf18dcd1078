[package]
name = "chip8"
version = "0.1.0"
edition = "2021"
publish = false

[dependencies]
anyhow = "1"
clap = { version = "4", features = ["derive"] }
glium = { version = "0.32", default-features = false }
rand = "0.8"
sdl2 = "0.35"
