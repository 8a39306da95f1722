[package]
name = "ptz_camera"
version = "0.1.0"
edition = "2021"
publish = false

[dependencies]
url = "2"
reqwest = { version = "0.11", default-features = false }
iced = { version = "0.3", features = ["tokio"] }
iced_native = "0.4"
