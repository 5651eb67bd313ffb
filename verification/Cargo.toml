[package]
name = "license_hub"
version = "0.1.0"
edition = "2021"
publish = false

[dependencies]
chrono = "0.4"
bcrypt = "0.15"
uuid = { version = "1", features = ["v4"] }
serde = { version = "1", features = ["derive"] }
serde_json = "1"
jsonwebtoken = "9"
