[package]
name = "rust_switcher"
version = "0.1.0"
edition = "2021"
publish = false

[dependencies]
evdev = "=0.13.2"
uinput = { version = "=0.1.3", default-features = false }
glob = "=0.3.4"
log = "=0.4.34"
env_logger = "=0.11.11"
serde = { version = "=1.0.229", features = ["derive"] }
toml = "=0.8.23"
