[package]
name = "ralph_orchestrator"
version = "0.1.0"
edition = "2021"
publish = false

[dependencies]
strip-ansi-escapes = "0.2"
uuid = { version = "1", features = ["v4"] }
serde = { version = "1", features = ["derive"] }
serde_json = "1"
tokio = { version = "1", features = ["process", "fs", "rt", "macros", "io-util", "sync"] }
command-group = { version = "5", features = ["with-tokio"] }
async-trait = "0.1"
futures = "0.3"
tracing = "0.1"
tracing-subscriber = "0.3"
axum = "0.8"
