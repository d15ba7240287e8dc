[package]
name = "tts_playback"
version = "0.1.0"
edition = "2021"
publish = false

[dependencies]
base64 = "0.22"
rodio = "0.17"
serde = { version = "1", features = ["derive"] }
tokio = { version = "1", features = ["full"] }
