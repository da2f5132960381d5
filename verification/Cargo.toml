[package]
name = "steam_checker"
version = "0.1.0"
edition = "2021"
publish = false

[dependencies]
eframe = { version = "=0.31.1", default-features = false, features = ["default_fonts", "glow", "wayland", "x11"] }
image = { version = "=0.25.10", default-features = false, features = ["jpeg"] }
