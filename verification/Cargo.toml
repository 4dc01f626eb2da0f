[package]
name = "marklip"
version = "0.1.0"
edition = "2021"
publish = false

[dependencies]
markdown = "*"
strip_markdown = "*"
htmd = "*"
clap = { version = "*", features = ["derive"] }
clipboard-rs = "*"
notify-rust = "*"
thiserror = "*"
