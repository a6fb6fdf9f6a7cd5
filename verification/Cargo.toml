[package]
name = "oxide"
version = "0.1.0"
edition = "2021"
publish = false

[dependencies]
serde = { version = "1", features = ["derive"] }
serde_json = "1"
chrono = "0.4"
once_cell = "1"
zip = "2"
image = { version = "0.25", default-features = false, features = ["png", "ico"] }
eframe = { version = "*", default-features = false, features = ["default_fonts", "glow", "x11"] }
rfd = "*"
rodio = "0.20"
