[package]
name = "sourcepin"
version = "0.1.0"
edition = "2021"
publish = false

[dependencies]
anyhow = "=1.0.104"
argh = "=0.1.19"
chrono = { version = "=0.4.45", features = ["serde"] }
env_logger = "=0.11.11"
mailparse = "=0.18.0"
serde = { version = "=1.0.229", features = ["derive"] }
serde_json = "=1.0.151"
ssri = "=9.2.0"
ureq = "=3.4.2"
url = { version = "=2.5.8", features = ["serde"] }
which = "=8.0.6"
