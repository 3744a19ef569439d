[package]
name = "agent_ctl"
version = "0.1.0"
edition = "2021"
publish = false

[dependencies]
anyhow = "1"
libc = "0.2"
nix = "0.23"
serde = { version = "1", features = ["derive"] }
serde_json = "1"
slog = "2"
slog-scope = "4"
tokio = { version = "1", features = ["rt", "sync"] }
