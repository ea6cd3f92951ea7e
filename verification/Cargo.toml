[package]
name = "payments_api"
version = "0.1.0"
edition = "2021"
publish = false

[dependencies]
error-stack = "0.2"
serde = { version = "1", features = ["derive"] }
serde_json = "1"
time = { version = "0.3", features = ["std", "formatting", "parsing", "serde", "serde-well-known"] }
