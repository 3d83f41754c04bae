[package]
name = "ghrs"
version = "0.1.0"
edition = "2021"
publish = false

[dependencies]
chrono = { version = "0.4", default-features = false, features = ["std"] }
hyperx = "1"
serde_json = "1"
ureq = "2"
