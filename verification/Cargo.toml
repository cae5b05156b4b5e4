[package]
name = "rechnen"
version = "0.1.0"
edition = "2021"
publish = false

[dependencies]
rand = "=0.8.5"
eframe = { version = "=0.24.1", default-features = false, features = ["default_fonts", "glow"] }
