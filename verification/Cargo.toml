[package]
name = "ravioni"
version = "0.1.0"
edition = "2021"
publish = false

[dependencies]
anyhow = "1"
dirs = "6"
env_logger = { version = "0.11", default-features = false }
ffmpeg-sidecar = { version = "2", default-features = false }
isolang = "2"
log = "0.4"
rand = "0.9"
regex = "1"
rfd = { version = "0.15", default-features = false, features = ["xdg-portal", "tokio"] }
serde = { version = "1", features = ["derive"] }
slint = { version = "1", default-features = false, features = ["compat-1-2", "std"] }
toml = "0.8"
whatlang = "0.16"
