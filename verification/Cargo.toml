[package]
name = "manaslu"
version = "0.1.0"
edition = "2021"
publish = false

[dependencies]
eframe = { version = "0.37", default-features = false, features = ["default_fonts", "glow", "x11"] }
rand = "0.10"
env_logger = "0.11"
fern = "0.7"
log = "0.4"
