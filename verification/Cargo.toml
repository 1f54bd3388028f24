[package]
name = "rust_snake"
version = "0.1.0"
edition = "2021"
publish = false

[dependencies]
rand = "=0.9.5"
egui = "0.27"
egui_extras = { version = "0.27", features = ["file", "image"] }
env_logger = "0.11"
