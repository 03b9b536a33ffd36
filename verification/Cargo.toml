[package]
name = "musicplayer"
version = "0.1.0"
edition = "2021"
publish = false

[dependencies]
iced = { version = "=0.13.1", default-features = false, features = ["tiny-skia", "tokio", "advanced"] }
rodio = { version = "=0.21.1", default-features = false }
rusqlite = "=0.32.1"
id3 = "=1.17.2"
serde = { version = "=1.0.229", features = ["derive"] }
serde_json = "=1.0.154"
tokio = { version = "=1.54.1", features = ["fs", "rt"] }
anyhow = "=1.0.104"
