[package]
name = "textory"
version = "0.1.0"
edition = "2021"
publish = false

[dependencies]
anyhow = "=1.0.104"
chrono = "=0.4.45"
clap = { version = "=4.6.7", features = ["derive"] }
env_logger = "=0.11.11"
git2 = { version = "=0.21.0", default-features = false }
inquire = "=0.9.4"
log = "=0.4.34"
lopdf = { version = "=0.46.0", default-features = false }
tempfile = "=3.27.0"
