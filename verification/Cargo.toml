[package]
name = "playlist_suggest"
version = "0.1.0"
edition = "2021"
publish = false

[dependencies]
serde_json = "1"
reqwest = { version = "0.12", features = ["blocking"] }
dotenv = "0.15"
