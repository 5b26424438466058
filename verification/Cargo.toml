[package]
name = "unzipper"
version = "0.1.0"
edition = "2021"

[dependencies]
zip = { version = "*", default-features = false, features = ["deflate"] }
