[package]
name = "egui_winit"
version = "0.1.0"
edition = "2021"
publish = false

[dependencies]
winit = { version = "0.28", default-features = false, features = ["x11"] }
webbrowser = "0.8"
log = "0.4"
instant = "0.1"
