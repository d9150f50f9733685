[package]
name = "termplay"
version = "0.1.0"
edition = "2021"
publish = false

[dependencies]
anyhow = "1"
clap = { version = "4", features = ["derive"] }
crossterm = "*"
ndarray = "*"
serde = { version = "1", features = ["derive"] }
termion = "*"
tokio = { version = "1", features = ["rt-multi-thread", "macros", "sync", "time", "signal"] }
video-rs = "*"
youtube_dl = "*"
