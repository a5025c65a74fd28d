[package]
name = "engine"
version = "0.1.0"
edition = "2021"
publish = false

[dependencies]
crossterm = { version = "*", features = ["event-stream"] }
futures = "*"
ratatui = "*"
tokio = { version = "*", features = ["macros", "rt-multi-thread", "sync", "time"] }
