[package]
name = "robot_rename"
version = "0.1.0"
edition = "2021"
publish = false

[dependencies]
clipboard = "0.5"
eframe = { version = "0.22", default-features = false, features = ["default_fonts", "glow"] }
egui = "0.22"
url = "2"
url_open = "*"
