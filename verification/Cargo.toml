[package]
name = "huelib2"
version = "0.1.0"
edition = "2021"
publish = false

[dependencies]
chrono = "=0.4.45"
serde = "=1.0.229"
serde_json = "=1.0.151"
ureq = { version = "=2.12.1", features = ["json"] }
