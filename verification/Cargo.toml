[package]
name = "torbox"
version = "0.1.0"
edition = "2021"
publish = false

[dependencies]
serde = { version = "=1.0.229", features = ["derive"] }
serde_json = "=1.0.151"
base64 = "=0.13.1"
reqwest = { version = "=0.13.5", default-features = false, features = ["multipart", "json", "query"] }
