[package]
name = "fluxa"
version = "0.1.0"
edition = "2021"
publish = false

[dependencies]
chrono = "0.4"
hex = "0.4"
lazy_static = "1"
serde = { version = "1", features = ["derive"] }
serde_json = "1"
sha2 = "0.10"
uuid = { version = "1", features = ["v4"] }
