[package]
name = "sidex_app"
version = "0.1.0"
edition = "2021"
publish = false

[dependencies]
anyhow = "=1.0.104"
arboard = { version = "=3.7.0", default-features = false }
clap = { version = "4", features = ["derive"] }
dirs = "=5.0.1"
env_logger = "0.11"
hostname = "=0.4.2"
humantime = "=2.4.0"
log = "=0.4.35"
open = "5"
serde = { version = "=1.0.229", features = ["derive"] }
serde_json = "=1.0.154"
