[package]
name = "graf"
version = "0.1.0"
edition = "2021"
publish = false

[dependencies]
anyhow = "=1.0.104"
chrono = "=0.4.45"
clap = { version = "=4.6.7", features = ["derive"] }
crossterm = "=0.28.1"
directories = "=5.0.1"
fdg-sim = "=0.9.1"
glob = "0.3"
ratatui = "=0.29.0"
serde = { version = "=1.0.229", features = ["derive"] }
toml = "=0.8.23"
