[package]
name = "basilk"
version = "0.1.0"
edition = "2021"
publish = false

[dependencies]
chrono = "0.4"
dirs = "5"
pulldown-cmark = "0.12"
ratatui = "0.27"
serde = { version = "1", features = ["derive"] }
serde_json = "1"
tui-input = "0.9"
tui-textarea = "0.5"
