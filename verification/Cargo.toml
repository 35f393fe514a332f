[package]
name = "rusty_snake"
version = "0.1.0"
edition = "2021"

[dependencies]
rand = "0.4"
sdl = "0.3"
