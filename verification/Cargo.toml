[package]
name = "cloudfn"
version = "0.1.0"
edition = "2021"
publish = false

[dependencies]
image = { version = "0.16", default-features = false }
serde = { version = "=1.0.229", features = ["derive"] }
serde_json = "=1.0.154"
uuid = { version = "=1.29.0", features = ["v4"] }
