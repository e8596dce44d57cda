[package]
name = "rr_launcher"
version = "0.1.0"
edition = "2021"
publish = false

[dependencies]
file-format = "=0.29.0"
image = { version = "=0.25.5", default-features = false, features = ["png", "gif", "bmp"] }
tempfile = "=3.27.0"
url = "=2.5.8"
serde = { version = "=1.0.229", features = ["derive"] }
serde_json = "=1.0.154"
