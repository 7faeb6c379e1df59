[package]
name = "breathe"
version = "0.1.0"
edition = "2021"
publish = false

[dependencies]
anyhow = "1"
clap = { version = "4", features = ["derive"] }
crossterm = "0.27"
ratatui = "0.26"
rodio = { version = "0.17", default-features = false }
serde = { version = "1", features = ["derive"] }
