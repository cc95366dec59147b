[package]
name = "v12"
version = "0.1.0"
edition = "2021"
publish = false

[dependencies]
eframe = { version = "=0.36.2", default-features = false, features = ["glow", "default_fonts", "persistence", "x11"] }
egui = "=0.36.2"
serde = { version = "=1.0.229", features = ["derive"] }
