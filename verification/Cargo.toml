[package]
name = "git_sv"
version = "0.1.0"
edition = "2021"
publish = false

[dependencies]
chrono = "=0.4.45"
crossterm = "=0.28.1"
git2 = "=0.21.0"
ratatui = "=0.29.0"
image = { version = "=0.25.10", default-features = false, features = ["png", "jpeg", "gif"] }
resvg = { version = "=0.45.1", default-features = false }
ratatui-image = { version = "=8.0.2", default-features = false, features = ["crossterm"] }
