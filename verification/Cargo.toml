[package]
name = "taphouse"
version = "0.1.0"
edition = "2021"
publish = false

[dependencies]
serde_json = "*"
tokio = { version = "*", features = ["rt-multi-thread", "macros", "process", "io-util", "sync", "time"] }
reqwest = { version = "*", default-features = false }
crossterm = "*"
ratatui = "*"
color-eyre = "*"
