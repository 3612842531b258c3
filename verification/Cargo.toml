[package]
name = "clipvanish"
version = "0.1.0"
edition = "2021"
publish = false

[dependencies]
aes-gcm-siv = "*"
rand = "*"
regex = "*"
zeroize = "*"
clap = { version = "*", features = ["derive"] }
tokio = { version = "*", features = ["full"] }
env_logger = "*"
log = "*"
serde = { version = "*", features = ["derive"] }
serde_json = "*"
global-hotkey = "*"
rdev = "*"
libc = "*"
