[package]
name = "color_guesser"
version = "0.1.0"
edition = "2021"
publish = false

[dependencies]
rand = "=0.9.5"
eframe = { version = "=0.32.3", default-features = false, features = ["glow", "x11", "default_fonts"] }
egui = "=0.32.3"
