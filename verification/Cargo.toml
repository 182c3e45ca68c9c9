[package]
name = "notes"
version = "0.1.0"
edition = "2021"
publish = false

[dependencies]
chrono = "0.4"
dirs = "6"
eframe = { version = "0.31", default-features = false, features = ["default_fonts", "glow", "wayland", "x11"] }
rand = "0.9"
serde = { version = "1", features = ["derive"] }
serde_json = "1"
