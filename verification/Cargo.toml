[package]
name = "terminal_session"
version = "0.1.0"
edition = "2021"
publish = false

[dependencies]
anyhow = "1"
bevy = { version = "0.10", default-features = false }
crossterm = "0.26"
