[package]
name = "gr2_viewer"
version = "0.1.0"
edition = "2021"
publish = false

[dependencies]
opengr2 = "=0.1.0"
egui = "=0.21.0"
eframe = { version = "=0.21.3", default-features = false, features = ["default_fonts", "glow"] }
rfd = { version = "0.12", default-features = false, features = ["xdg-portal"] }
tracing = "=0.1.44"
wasm-bindgen-futures = "=0.4.34"
