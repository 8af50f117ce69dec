[package]
name = "playback_core"
version = "0.1.0"
edition = "2021"
publish = false

[dependencies]
symphonia = { version = "=0.6.1", features = ["aac", "alac", "flac", "isomp4", "mp3", "ogg", "pcm", "vorbis", "wav"] }
symphonia-core = "=0.6.1"
lofty = "=0.25.4"
base64 = "=0.23.1"
crossbeam-channel = "=0.5.17"
parking_lot = "=0.12.5"
serde = { version = "=1.0.229", features = ["derive"] }
serde_json = "=1.0.151"
dirs-next = "=2.0.0"
walkdir = "=2.5.0"
