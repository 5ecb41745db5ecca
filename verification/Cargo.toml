[package]
name = "fernbedienung"
version = "0.1.0"
edition = "2021"
publish = false

[dependencies]
evdev = "*"
shell-words = "*"
inotify = "*"
log = "*"
env_logger = "*"
eyre = "*"
serde = { version = "*", features = ["derive"] }
toml = "*"
