[package]
name = "llmproxify"
version = "0.1.0"
edition = "2021"
publish = false

[dependencies]
axum = "0.8"
dotenv = "0.15"
reqwest = { version = "0.12", features = ["stream"] }
serde = { version = "1", features = ["derive"] }
serde_json = "1"
tokio = { version = "1", features = ["full"] }
url = "2"
