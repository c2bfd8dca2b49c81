[package]
name = "typewriter"
version = "0.1.0"
edition = "2021"
publish = false

[dependencies]
sdl3 = { version = "*", features = ["ttf"] }
