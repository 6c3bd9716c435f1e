[package]
name = "prompt_toolkit"
version = "0.1.0"
edition = "2021"
publish = false

[dependencies]
unicode-width = "*"
nix = { version = "*", features = ["term", "poll", "time", "fs", "ioctl", "process", "signal"] }
anyhow = "*"
tracing = "*"
tracing-appender = "*"
tracing-subscriber = "*"
