[package]
name = "remote_control"
version = "0.1.0"
edition = "2021"
publish = false

[dependencies]
base64 = "0.21"
chrono = "0.4"
enigo = "0.1"
image = { version = "0.24", default-features = false, features = ["png"] }
screenshots = "0.8"
serde = { version = "1", features = ["derive"] }
serde_json = "1"
uuid = { version = "1", features = ["v4"] }
