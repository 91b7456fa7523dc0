[package]
name = "imeji"
version = "0.1.0"
edition = "2021"
publish = false

[dependencies]
image = "*"
argh = "*"
eframe = { version = "*", default-features = false, features = ["glow", "x11", "default_fonts"] }
