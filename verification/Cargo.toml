[package]
name = "agman_tui"
version = "0.1.0"
edition = "2021"
publish = false

[dependencies]
anyhow = "1"
arboard = "3"
chrono = "0.4"
dirs = "5"
pulldown-cmark = "0.12"
ratatui = "0.29"
tokio = { version = "1", features = ["rt-multi-thread", "sync", "time"] }
tracing = "0.1"
tui-textarea = "0.7"
