[package]
name = "monzo"
version = "0.1.0"
edition = "2021"
publish = false

[dependencies]
chrono = { version = "0.4", default-features = false, features = ["std", "serde"] }
erased-serde = "0.3"
http = "0.2"
serde = { version = "1", features = ["derive"] }
serde_json = "1"
