[package]
name = "claude_watch_policy"
version = "0.1.0"
edition = "2021"
publish = false

[dependencies]
chrono = "0.4"
nix = { version = "0.29", features = ["process", "signal"] }
regex-lite = "0.1"
serde_json = "1"
tokio = { version = "1", features = ["fs", "macros", "process", "rt", "time"] }
tracing = "0.1"
