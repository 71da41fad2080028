[package]
name = "candle_vllm"
version = "0.1.0"
edition = "2021"
publish = false

[dependencies]
candle-core = { version = "*", default-features = false }
turboquant = "*"
serde = { version = "1", features = ["derive"] }
serde_json = "1"
tokio = { version = "1", features = ["sync"] }
axum = { version = "*", default-features = false }
tracing = "0.1"
