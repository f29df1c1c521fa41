[package]
name = "pomodorust"
version = "0.1.0"
edition = "2021"
publish = false

[dependencies]
chrono = "*"
clap = { version = "*", features = ["derive"] }
crossterm = "*"
directories = "*"
notify-rust = "*"
ratatui = "*"
rodio = "*"
serde = { version = "*", features = ["derive"] }
serde_json = "*"
