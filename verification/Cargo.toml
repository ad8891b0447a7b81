[package]
name = "dist_config"
version = "0.1.0"
edition = "2021"
publish = false

[dependencies]
base64 = "0.22"
tempfile = "3"
uuid = { version = "1", features = ["v4"] }
