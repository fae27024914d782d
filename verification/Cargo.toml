[package]
name = "typing_session"
version = "0.1.0"
edition = "2021"
publish = false

[dependencies]
crossterm = "0.28"
ratatui = "0.29"
macroquad = { version = "0.4", default-features = false }
