[package]
name = "kugou_tui"
version = "0.4.0"
edition = "2021"
publish = false

[dependencies]
anyhow = "1"
crossbeam-channel = "0.5"
dirs = "=7.0.0"
image = { version = "=0.25.10", default-features = false, features = ["bmp", "gif", "jpeg", "png", "webp"] }
ratatui = { version = "=0.30.2", default-features = false, features = ["crossterm"] }
ratatui-image = { version = "=11.1.0", default-features = false }
reqwest = { version = "=0.12.28", default-features = false, features = ["rustls-tls", "stream"] }
serde = { version = "1", features = ["derive"] }
serde_json = "1"
tokio = { version = "1", features = ["rt-multi-thread", "time", "fs", "io-util"] }
toml = "=1.1.8"
