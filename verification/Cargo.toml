[package]
name = "qconnect"
version = "0.1.0"
edition = "2021"
publish = false

[dependencies]
anyhow = "=1.0.104"
async-trait = "=0.1.92"
clap = { version = "=4.6.7", features = ["derive", "env"] }
dirs = "=7.0.0"
env_logger = "=0.11.11"
hex = "=0.4.3"
log = { version = "=0.4.35", features = ["std"] }
open = "=5.4.5"
reqwest = { version = "=0.12.28", default-features = false, features = ["json", "rustls-tls-webpki-roots-no-provider"] }
rodio = { version = "=0.22.2", default-features = false, features = ["flac", "mp3", "mp4", "wav"] }
rustls = { version = "=0.23.46", default-features = false, features = ["ring", "std"] }
serde = { version = "=1.0.229", features = ["derive"] }
serde_json = "=1.0.154"
souvlaki = { version = "=0.9.3", default-features = false, features = ["use_zbus"] }
symphonia = { version = "=0.5.5", default-features = false, features = ["aac", "flac", "isomp4", "mp3", "pcm", "wav"] }
tokio = { version = "=1.54.1", features = ["full"] }
urlencoding = "=2.1.3"
uuid = { version = "=1.29.0", features = ["v4"] }
