[package]
name = "streamer"
version = "0.1.0"
edition = "2021"
publish = false

[dependencies]
anyhow = "*"
async-trait = "*"
bytes = "*"
ffmpeg-next = "*"
log = "*"
tokio = { version = "*", features = ["rt-multi-thread", "sync", "time"] }
