[package]
name = "zero_bounce"
version = "0.1.0"
edition = "2021"
publish = false

[dependencies]
bytes = "1"
chrono = "0.4"
reqwest = { version = "0.12", default-features = false, features = ["blocking", "multipart"] }
serde = "1"
serde_json = "1"
