[package]
name = "repo_mcp"
version = "0.1.0"
edition = "2021"
publish = false

[dependencies]
axum = "*"
futures-core = "*"
serde = { version = "1", features = ["derive"] }
serde_json = "1"
tokio = { version = "1", features = ["full"] }
tokio-stream = { version = "*", features = ["time"] }
tracing = "*"
tracing-subscriber = { version = "*", features = ["env-filter"] }
uuid = { version = "1", features = ["v4"] }
walkdir = "2"
