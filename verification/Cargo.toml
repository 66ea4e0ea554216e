[package]
name = "kiya"
version = "0.1.0"
edition = "2021"
publish = false

[dependencies]
serde_json = "1"
serde = { version = "1", features = ["derive"] }
toml = "0.8"
clap = { version = "4", features = ["cargo"] }
tokio = { version = "1", features = ["full"] }
dotenvy = "0.15"
openai = "1.0.0-alpha.10"
rusqlite = { version = "0.32", features = ["bundled"] }
directories = "5"
curl = "0.4"
hound = "3"
mp3-duration = "0.1"
rodio = { version = "0.19", default-features = false, features = ["mp3"] }
cpal = "0.15"
anyhow = "1"
