[package]
name = "twitch_oauth2"
version = "0.1.0"
edition = "2021"
publish = false

[dependencies]
oauth2 = { version = "4", default-features = false }
url = "2"
serde = { version = "1", features = ["derive"] }
serde_json = "1"
