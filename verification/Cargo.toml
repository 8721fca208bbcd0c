[package]
name = "cap_desktop"
version = "0.1.0"
edition = "2021"
publish = false

[dependencies]
image = { version = "0.25", default-features = false, features = ["jpeg", "png"] }
mp4 = "0.14"
num-traits = "0.2"
serde = { version = "1", features = ["derive"] }
serde_json = "1"
tempfile = "3"
tokio = { version = "1", features = ["fs", "rt", "sync", "time"] }
uuid = { version = "1", features = ["v4"] }
