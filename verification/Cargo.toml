[package]
name = "marstui_audio"
version = "0.1.0"
edition = "2021"
publish = false

[dependencies]
crossterm = "0.25"
dirs = "*"
mpris = "*"
serde = { version = "*", features = ["derive"] }
toml = "*"
tui = "*"
zbus = "*"
