[package]
name = "quotewall"
version = "0.1.0"
edition = "2021"
publish = false

[dependencies]
axum = { version = "0.8", features = ["multipart"] }
chrono = "0.4"
chrono-tz = "0.10"
escpos = { version = "0.15", features = ["graphics", "ui"] }
garde = { version = "0.22", features = ["derive"] }
image = "0.25"
mime_guess = "2"
rust-embed = "8"
serde = { version = "1", features = ["derive"] }
serde_json = "1"
tokio = { version = "1", features = ["full"] }
