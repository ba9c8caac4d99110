[package]
name = "hdhomerun"
version = "0.1.0"
edition = "2021"
publish = false

[dependencies]
serde_json = "1"
reqwest = { version = "*", default-features = false }
tokio = { version = "1", features = ["rt-multi-thread"] }
async-channel = "2"
gtk4 = "*"
glib = "*"
