[package]
name = "artificial_life"
version = "0.1.0"
edition = "2021"
publish = false

[dependencies]
egui = "0.21"
egui-macroquad = { version = "0.15", default-features = false }
macroquad = { version = "0.3", default-features = false }
serde = { version = "1", features = ["derive"] }
serde_json = "1"
