[package]
name = "sabry"
version = "0.1.0"
edition = "2021"
publish = false

[dependencies]
crossterm = { version = "=0.29.0", features = ["event-stream"] }
ratatui = "=0.30.2"
tokio = { version = "=1.53.2", features = ["full"] }
futures = "=0.3.34"
log = "=0.4.34"
thiserror = "=2.0.21"
