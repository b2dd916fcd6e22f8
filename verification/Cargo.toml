[package]
name = "algolia"
version = "0.1.0"
edition = "2021"
publish = false

[dependencies]
hmac = "=0.12.1"
sha2 = "=0.10.9"
hex = "=0.4.3"
base64 = "=0.13.1"
rand = "=0.8.8"
serde_json = "=1.0.151"
serde = { version = "=1.0.229", features = ["derive"] }
chrono = { version = "=0.4.45", features = ["serde"] }
reqwest = { version = "=0.11.27", default-features = false, features = ["json"] }
