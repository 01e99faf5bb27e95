[package]
name = "video_noise"
version = "0.1.0"
edition = "2021"
publish = false

[dependencies]
chrono = "0.4"
image = { version = "0.25", default-features = false, features = ["png", "jpeg"] }
ndarray = "0.16"
gstreamer = "0.23"
gstreamer-app = "0.23"
gstreamer-video = "0.23"
rfd = "0.15"
slint = { version = "1", default-features = false, features = ["std", "compat-1-2"] }
thiserror = "2"
