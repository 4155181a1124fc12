[package]
name = "osu_favorites"
version = "0.1.0"
edition = "2021"
publish = false

[dependencies]
serde_json = "1"
dotenv = "0.15"
indicatif = "*"
reqwest = { version = "*", default-features = false, features = ["blocking"] }
