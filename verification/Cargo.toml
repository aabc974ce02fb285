[package]
name = "agentic_ai"
version = "0.1.0"
edition = "2021"
publish = false

[dependencies]
dotenvy = "=0.15.7"
gemini-client-api = "=7.7.1"
ollama-rs = "=0.3.6"
reqwest = { version = "=0.12.28", features = ["json"] }
rig-core = "=0.32.0"
serde = { version = "=1.0.229", features = ["derive"] }
serde_json = "=1.0.154"
tokio = { version = "=1.54.1", features = ["full"] }
