[package]
name = "calibrator_gui"
version = "0.1.0"
edition = "2021"
publish = false

[dependencies]
glow = "0.16"
egui = "=0.31.1"
eframe = { version = "=0.31.1", default-features = false, features = ["default_fonts", "glow", "persistence", "x11"] }
rfd = "=0.17.2"
serde = { version = "=1.0.229", features = ["derive"] }
