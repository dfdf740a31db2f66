[package]
name = "chip8"
version = "0.1.0"
edition = "2021"
publish = false

[dependencies]
rand = "0.8"
sdl2 = "0.35"
reqwest = { version = "0.11", features = ["blocking"] }
dialoguer = "0.10"
console = "0.15"
