[package]
name = "gitu"
version = "0.1.0"
edition = "2021"
publish = false

[dependencies]
clap = { version = "*", features = ["derive"] }
crossterm = "*"
git2 = { version = "*", default-features = false }
ratatui = "*"
signal-hook = "*"
