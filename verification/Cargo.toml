[package]
name = "journaltime"
version = "0.1.0"
edition = "2021"
publish = false

[dependencies]
chrono = "0.4"
clap = { version = "4", features = ["derive"] }
dirs = "*"
inotify = "*"
serde = { version = "1", features = ["derive"] }
serde_yaml = "*"
yaml-front-matter = "*"
