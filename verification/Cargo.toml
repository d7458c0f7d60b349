[package]
name = "vidfetch"
version = "0.1.0"
edition = "2021"
publish = false

[dependencies]
dioxus = { version = "0.6", features = ["router"] }
yt-dlp = "*"
