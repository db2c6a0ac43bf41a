[package]
name = "easy_maa"
version = "0.1.0"
edition = "2021"
publish = false

[dependencies]
regex = "1"
serde_urlencoded = "0.7"
serde = { version = "1", features = ["derive"] }
toml = "0.8"
dotenvy = "0.15"
libc = "0.2"
