[package]
name = "tokenx"
version = "0.1.0"
edition = "2021"
publish = false

[dependencies]
unicode-width = "0.2"
chrono = "0.4"
serde = { version = "1", features = ["derive"] }
serde_json = "1"
anyhow = "1"
crossterm = "*"
