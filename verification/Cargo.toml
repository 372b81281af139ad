[package]
name = "road_intersection"
version = "0.1.0"
edition = "2021"
publish = false

[dependencies]
rand = "=0.9.5"
sdl2 = { version = "=0.38.0", features = ["image"] }
