[package]
name = "spotify_ids"
version = "0.1.0"
edition = "2021"
publish = false

[dependencies]
chrono = "*"
derive_builder = "*"
dotenv = "*"
getrandom = "*"
serde = { version = "*", features = ["derive"] }
serde_json = "*"
strum = { version = "*", features = ["derive"] }
thiserror = "*"
url = "*"
