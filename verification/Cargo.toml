[package]
name = "microscope"
version = "0.1.0"
edition = "2021"
publish = false

[dependencies]
base64 = "=0.22.1"
chrono = "=0.4.45"
eframe = { version = "=0.31.1", default-features = false, features = ["glow", "x11", "default_fonts"] }
env_logger = "=0.11.11"
image = { version = "=0.25.10", default-features = false, features = ["jpeg", "png"] }
lazy_static = "=1.5.1"
log = "=0.4.34"
rfd = { version = "=0.17.2", default-features = false, features = ["xdg-portal"] }
serde = { version = "=1.0.229", features = ["derive"] }
serde_json = "=1.0.154"
