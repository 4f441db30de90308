[package]
name = "stickies"
version = "0.1.0"
edition = "2021"
publish = false

[dependencies]
eframe = { version = "=0.24.1", default-features = false, features = ["glow", "persistence"] }
egui = "=0.24.1"
serde = { version = "*", features = ["derive"] }
