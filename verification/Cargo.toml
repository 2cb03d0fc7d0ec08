[package]
name = "app_store_connect"
version = "0.1.0"
edition = "2021"
publish = false

[dependencies]
jsonwebtoken = "9"
serde_json = "1"
serde = { version = "1", features = ["derive"] }
uuid = { version = "1", features = ["v4"] }
reqwest = { version = "0.12", default-features = false, features = ["blocking", "json"] }
dirs = "*"

[dev-dependencies]
ring = "0.17"
base64 = "0.22"
