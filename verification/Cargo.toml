[package]
name = "yumetouch"
version = "0.1.0"
edition = "2021"
publish = false

[dependencies]
clap = { version = "4", features = ["derive"] }
ctrlc = "3"
env_logger = "*"
log = "0.4"
mac-notification-sys = "*"
serde = { version = "1", features = ["derive"] }
toml = "*"
