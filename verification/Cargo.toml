[package]
name = "pointer_gestures"
version = "0.1.0"
edition = "2021"
publish = false

[dependencies]
device_query = "*"
reqwest = { version = "0.12", default-features = false, features = ["json"] }
serde = { version = "1", features = ["derive"] }
serde_json = "1"
winapi = { version = "0.3", features = ["winuser"] }
