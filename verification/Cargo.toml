[package]
name = "sarcast"
version = "0.1.0"
edition = "2021"
publish = false

[dependencies]
bytes = "=1.12.1"
symphonia = { version = "=0.5.5", features = ["mp3"] }
tokio = { version = "=1.53.2", features = ["full"] }
reqwest = { version = "=0.13.5", default-features = false }
rodio = "=0.22.2"
rss = "=2.1.2"
chrono = "=0.4.45"
