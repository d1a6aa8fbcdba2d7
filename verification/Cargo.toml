[package]
name = "ytdlp_gui"
version = "0.1.0"
edition = "2021"
publish = false

[dependencies]
chrono = { version = "=0.4.45", default-features = false, features = ["clock"] }
dirs = "5"
iced = { version = "0.12", default-features = false }
iced_aw = { version = "0.9", default-features = false, features = ["tabs"] }
iced_runtime = "0.12"
rfd = { version = "0.15", default-features = false, features = ["xdg-portal", "tokio"] }
serde = { version = "1", features = ["derive"] }
toml = "0.8"
tracing = "0.1"
tracing-appender = "0.2"
tracing-subscriber = { version = "0.3", features = ["env-filter"] }
url = "=2.5.2"
