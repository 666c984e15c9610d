[package]
name = "yt_tui"
version = "0.1.0"
edition = "2021"
publish = false

[dependencies]
anyhow = "1"
crossterm = "0.25"
oauth2 = "4.4"
once_cell = "1"
reqwest = { version = "0.11", default-features = false, features = ["rustls-tls"] }
serde = { version = "1", features = ["derive"] }
serde_json = "1"
tiny_http = "0.12"
tokio = { version = "1", features = ["rt-multi-thread", "macros"] }
tui = "0.19"
url = "2"
webbrowser = "0.8"
