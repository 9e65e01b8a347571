[package]
name = "interface_monitor"
version = "0.1.0"
edition = "2021"
publish = false

[dependencies]
serde_json = "1"
serde = { version = "1", features = ["derive"] }
tokio = { version = "1", features = ["full"] }
futures = "0.3"
crossterm = "0.27"
ratatui = "0.26"
r2r = "*"
