[package]
name = "vesper_harness"
version = "0.1.0"
edition = "2021"
publish = false

[dependencies]
serde = { version = "1", features = ["derive"] }
serde_json = "1"
tokio = { version = "1", features = ["full"] }
reqwest = { version = "0.12", default-features = false, features = ["json", "rustls-tls"] }
crossterm = "0.28"
ratatui = "0.29"
tui-input = { version = "0.11", features = ["crossterm"] }
colored = "2"
