[package]
name = "spotify_freemium"
version = "0.1.0"
edition = "2021"
publish = false

[dependencies]
dirs = "*"
notify = "4"
