[package]
name = "source_agent"
version = "0.1.0"
edition = "2021"
publish = false

[dependencies]
anyhow = "1"
rusqlite = { version = "*", features = ["bundled"] }
thiserror = "1"
tokio = { version = "1", features = ["sync", "rt", "rt-multi-thread", "macros"] }
tracing = "0.1"
