[package]
name = "analog_clock"
version = "0.1.0"
edition = "2021"
publish = false

[dependencies]
chrono = "0.4"
eframe = { version = "0.36", default-features = false, features = ["glow", "default_fonts", "x11"] }
egui = "0.36"
