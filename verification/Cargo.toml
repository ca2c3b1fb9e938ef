[package]
name = "apifs"
version = "0.1.0"
edition = "2021"
publish = false

[dependencies]
chrono = { version = "=0.4.45", features = ["serde"] }
serde = { version = "=1.0.229", features = ["derive"] }
serde_json = "=1.0.154"
anyhow = "=1.0.104"
file-lock = "=2.1.11"
lazy_static = "=1.5.1"
signal-hook = "=0.3.18"
thread-priority = "=3.1.1"
cli-log = "=2.1.1"
gtk4 = "=0.9.7"

[dev-dependencies]
regex = "=1.13.1"
