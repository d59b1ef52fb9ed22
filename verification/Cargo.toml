[package]
name = "repotablo"
version = "0.1.0"
edition = "2021"
publish = false

[dependencies]
arboard = { version = "=3.6.1", default-features = false }
open = "=5.4.4"
chrono = "=0.4.45"
chrono-humanize = "=0.2.3"
pulldown-cmark = "=0.13.4"
fakeit = "=1.4.1"
ratatui = "=0.30.2"
crossterm = "=0.29.0"
clap = { version = "=4.6.7", features = ["derive", "env"] }
octocrab = { version = "=0.47.1", default-features = false, features = ["default-client", "rustls", "rustls-ring", "rustls-webpki-tokio"] }
tokio = { version = "=1.53.2", features = ["rt", "rt-multi-thread", "macros", "sync"] }
reqwest = { version = "=0.13.5", default-features = false }
tempfile = "=3.27.0"
anyhow = "=1.0.104"
