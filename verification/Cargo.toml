[package]
name = "scalpel_launcher"
version = "0.1.0"
edition = "2021"
publish = false

[dependencies]
serde_json = "1"
registry = "1"
reqwest = { version = "0.12", default-features = false, features = ["rustls-tls"] }
