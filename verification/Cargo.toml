[package]
name = "watchmove"
version = "0.1.0"
edition = "2021"
publish = false

[dependencies]
regex = "1"
inotify = { version = "0.10", default-features = false }
