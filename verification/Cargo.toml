[package]
name = "prakrust"
version = "0.1.0"
edition = "2021"
publish = false

[dependencies]
symphonia = { version = "=0.5.5", features = ["mp3"] }
kira = "=0.9.6"
rfd = { version = "=0.15.4", default-features = false, features = ["gtk3"] }
