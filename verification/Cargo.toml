[package]
name = "manning"
version = "1.0.0"
edition = "2021"
publish = false

[dependencies]
calamine = { version = "=0.24.0", features = ["dates"] }
chrono = "=0.4.45"
eframe = { version = "=0.27.2", default-features = false, features = ["glow", "default_fonts"] }
image = { version = "=0.24.9", default-features = false, features = ["png"] }
rfd = "=0.14.1"
