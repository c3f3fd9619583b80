[package]
name = "invaders"
version = "0.1.0"
edition = "2021"
publish = false

[dependencies]
rand = "*"
sdl2 = { version = "*", features = ["image", "mixer", "ttf"] }
serde_json = "*"
