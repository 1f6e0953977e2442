[package]
name = "dot_agent_deck"
version = "0.1.0"
edition = "2021"
publish = false

[dependencies]
regex = "1"
serde_json = "1"
chrono = "0.4"
libc = "0.2"
tokio = { version = "1", features = ["process", "time", "rt"] }
thiserror = "*"
tracing = "0.1"
