[package]
name = "vterm"
version = "0.1.0"
edition = "2021"
publish = false

[dependencies]
alacritty_terminal = "*"
tokio = { version = "1", features = ["rt-multi-thread", "macros", "sync", "time"] }
