[package]
name = "anime_launcher"
version = "0.1.0"
edition = "2021"
publish = false

[dependencies]
anyhow = "1"
fluent-templates = "0.8"
gtk4 = "0.5"
libadwaita = "0.2"
rfd = "0.10"
serde = { version = "1", features = ["derive"] }
serde_json = "1"
unic-langid = { version = "0.9", features = ["macros"] }
wait_not_await = "0.2"
