[package]
name = "open_media_tracker"
version = "0.1.0"
edition = "2021"
publish = false

[dependencies]
fuzzy-matcher = "=0.3.7"
mime_guess = "=2.0.5"
url = "=2.5.8"
ron = "=0.12.3"
serde = { version = "=1.0.229", features = ["derive"] }
dirs = "=7.0.0"
log = "=0.4.35"
env_logger = "=0.11.11"
expand-tilde = "*"
