[package]
name = "multi_agent_file_processor"
version = "0.1.0"
edition = "2021"
publish = false

[dependencies]
anyhow = "*"
async-nats = "*"
dotenvy = "*"
futures-util = "*"
serde = { version = "*", features = ["derive"] }
serde_json = "*"
tokio = { version = "*", features = ["full"] }
toml = "*"
tracing = "*"
tracing-subscriber = { version = "*", features = ["env-filter"] }
