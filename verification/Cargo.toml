[package]
name = "audio_out"
version = "0.1.0"
edition = "2021"
publish = false

[dependencies]
rb = "*"
tokio = { version = "*", features = ["sync"] }
symphonia = "*"
serde = { version = "*", features = ["derive"] }
trash = "*"
log = "*"
libpulse-binding = "*"
libpulse-simple-binding = "*"
