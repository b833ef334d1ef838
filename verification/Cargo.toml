[package]
name = "spotify_player"
version = "0.1.0"
edition = "2021"
publish = false

[dependencies]
rand = "=0.9.5"
sha2 = "=0.10.9"
base64 = "=0.22.1"
url = "=2.5.8"
ratatui = { version = "=0.29.0", default-features = false }
crossterm = "=0.28.1"
serde = { version = "=1.0.229", features = ["derive"] }
toml = "=0.8.23"
fuzzy-matcher = "0.3"
html-escape = "0.2"
