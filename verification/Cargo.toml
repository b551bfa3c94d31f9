[package]
name = "football_scoreboard"
version = "0.2.0"
edition = "2021"
publish = false

[dependencies]
eframe = { version = "0.29", default-features = false, features = ["default_fonts", "glow", "x11"] }
egui = "0.29"
image = { version = "0.25", default-features = false, features = ["png", "jpeg", "webp", "gif"] }
rfd = "0.15"
serde = { version = "1", features = ["derive"] }
serde_json = "1"
