[package]
name = "tray_runner"
version = "0.1.0"
edition = "2021"
publish = false

[dependencies]
anyhow = "1"
chrono = "0.4"
clap = { version = "4", features = ["derive"] }
dirs = "*"
env_logger = "*"
log = "0.4"
notify-rust = "4"
open = "5"
strum = { version = "*", features = ["derive"] }
tao = "*"
tray-icon = "*"
