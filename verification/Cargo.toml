[package]
name = "wootili_view"
version = "0.1.0"
edition = "2021"
publish = false

[dependencies]
eframe = { version = "0.29", default-features = false, features = ["default_fonts", "glow", "x11"] }
egui-notify = "0.17"
image = { version = "0.25", default-features = false }
lazy_static = "1"
libloading = "0.8"
ron = "0.8"
scorched = "*"
serde = { version = "1", features = ["derive"] }
serde_json = "1"
ver-cmp = "*"
wooting-rgb-sys = "*"
