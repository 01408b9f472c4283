[package]
name = "lol_draft"
version = "0.1.0"
edition = "2021"
publish = false

[dependencies]
uuid = { version = "*", features = ["v4"] }
chrono = "*"
csv = "*"
serde = { version = "*", features = ["derive"] }
