[package]
name = "smart_brightness"
version = "0.1.0"
edition = "2021"
publish = false

[dependencies]
chrono = "*"
crossterm = "*"
ctrlc = "*"
dirs = "*"
flate2 = "*"
ratatui = "*"
serde = { version = "*", features = ["derive"] }
tar = "*"
toml = "*"
v4l = "*"
