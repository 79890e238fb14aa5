[package]
name = "writeapp"
version = "0.1.0"
edition = "2021"
publish = false

[dependencies]
anyhow = "*"
chrono = "*"
clap = { version = "*", features = ["derive"] }
crossterm = "*"
directories = "*"
pulldown-cmark = "*"
ratatui = "*"
serde = { version = "*", features = ["derive"] }
serde_json = "*"
