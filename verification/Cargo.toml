[package]
name = "srt_media"
version = "0.1.0"
edition = "2021"
publish = false

[dependencies]
bytes = "=1.12.1"
cpal = "0.13"
futures-util = "=0.3.34"
log = "=0.4.35"
pretty_env_logger = "0.4"
ringbuf = "=0.2.8"
schemars = "=0.8.22"
serde = "=1.0.229"
serde_derive = "=1.0.229"
srt-tokio = "=0.4.4"
stainless_ffmpeg = "=0.2.8"
tokio = { version = "=1.54.1", features = ["rt-multi-thread"] }
