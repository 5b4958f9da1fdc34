[package]
name = "minicode"
version = "0.1.0"
edition = "2021"
publish = false

[dependencies]
url = "2"
serde_json = "1"
serde = { version = "1", features = ["derive"] }
unicode-width = "0.2"
similar = "2"
chrono = "0.4"
ratatui = "0.29"
tui-textarea = "0.7"
crossterm = "0.28"
scraper = "0.20"
reqwest = { version = "0.12", default-features = false, features = ["json", "rustls-tls"] }
tokio = { version = "1", features = ["net", "rt", "macros"] }
dirs = "5"
