[package]
name = "rust_me"
version = "0.1.0"
edition = "2021"
publish = false

[dependencies]
clap = "4"
image = { version = "0.25", default-features = false, features = ["png", "jpeg", "gif", "bmp", "tiff", "webp"] }
reqwest = { version = "0.12", default-features = false, features = ["blocking"] }
serde_json = "1"
tungstenite = "0.24"
url = "2"
uuid = { version = "1", features = ["v4"] }
