[package]
name = "llm_query"
version = "0.1.0"
edition = "2021"
publish = false

[dependencies]
serde_json = "=1.0.154"
serde = { version = "1", features = ["derive"] }
reqwest = { version = "0.12", features = ["json"] }
