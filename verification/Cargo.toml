[package]
name = "codex_tui"
version = "0.1.0"
edition = "2021"
publish = false

[dependencies]
shlex = "1"
unicode-segmentation = "1"
ratatui = { version = "0.29", default-features = false }
image = { version = "0.25", default-features = false, features = ["png", "webp"] }
