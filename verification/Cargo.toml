[package]
name = "lvu"
version = "0.1.0"
edition = "2021"
publish = false

[dependencies]
ratatui = { version = "=0.29.0", default-features = false, features = ["unstable-rendered-line-info"] }
crossterm = "=0.28.1"
unicode-width = "=0.2.0"
