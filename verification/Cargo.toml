[package]
name = "termvid"
version = "0.1.0"
edition = "2021"
publish = false

[dependencies]
clap = "*"
crossterm = "*"
ffmpeg-next = "*"
image = { version = "*", default-features = false }
