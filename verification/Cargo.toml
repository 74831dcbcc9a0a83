[package]
name = "git_tui"
version = "0.1.0"
edition = "2021"
publish = false

[dependencies]
anyhow = "1"
chrono = { version = "0.4", default-features = false, features = ["std"] }
crossterm = "0.28"
git2 = "0.19"
ratatui = "0.29"
