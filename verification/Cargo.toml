[package]
name = "tui_runtime"
version = "0.1.0"
edition = "2021"
publish = false

[dependencies]
anyhow = "*"
crossterm = { version = "*", features = ["event-stream"] }
futures = "*"
ratatui = "*"
signal-hook = "*"
tokio = { version = "*", features = ["macros", "rt-multi-thread", "sync", "time"] }
tokio-util = "*"
