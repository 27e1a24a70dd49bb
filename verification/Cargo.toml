[package]
name = "rt"
version = "0.1.0"
edition = "2021"
publish = false

[dependencies]
image = { version = "0.25", default-features = false, features = ["png", "jpeg"] }
clap = { version = "4", features = ["derive"] }
glam = "0.29"
noise = "0.9"
rand = "0.8"
rayon = "1"
eframe = { version = "0.29", default-features = false, features = ["default_fonts", "glow", "x11"] }
