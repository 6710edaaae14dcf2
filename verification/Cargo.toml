[package]
name = "feednotes"
version = "0.1.0"
edition = "2021"
publish = false

[dependencies]
chrono = { version = "=0.4.45", features = ["serde"] }
ratatui = { version = "=0.29.0", features = ["unstable-rendered-line-info"] }
serde = { version = "=1.0.229", features = ["derive"] }
serde_json = "=1.0.154"
tui-textarea = "=0.7.0"
tui-widget-list = "=0.13.3"
