[package]
name = "polaris"
version = "0.1.0"
edition = "2021"
publish = false

[dependencies]
jsonwebtoken = "9"
chrono = "0.4"
serde_json = "1"
serde = { version = "1", features = ["derive"] }
serde_yml = "0.0.12"
axum = "0.8"
tokio = { version = "1", features = ["rt-multi-thread", "macros"] }
