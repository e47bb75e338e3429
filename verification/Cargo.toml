[package]
name = "termface"
version = "0.1.0"
edition = "2021"
publish = false

[dependencies]
anyhow = "1"
crossterm = "0.28"
ratatui = { version = "0.29", features = ["unstable-widget-ref"] }
resvg = { version = "0.45", default-features = false }
