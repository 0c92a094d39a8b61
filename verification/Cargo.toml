[package]
name = "audio_player"
version = "0.1.0"
edition = "2021"
publish = false

[dependencies]
rodio = { version = "0.20", default-features = false, features = ["mp3"] }
symphonia = { version = "0.5", features = ["mp3"] }
