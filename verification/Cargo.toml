[package]
name = "sharks_safe_haven"
version = "0.1.0"
edition = "2021"
publish = false

[dependencies]
rusqlite = "0.29"
chrono = "0.4"
eframe = { version = "0.22", default-features = false, features = ["default_fonts", "glow"] }
egui = "0.22"
egui_extras = { version = "0.22", features = ["datepicker"] }
