[package]
name = "layer_browser"
version = "0.1.0"
edition = "2021"
publish = false

[dependencies]
anyhow = "*"
clap = { version = "*", features = ["derive"] }
color-eyre = "*"
ratatui = "*"
rusqlite = { version = "*", features = ["bundled"] }
toml_edit = "*"
