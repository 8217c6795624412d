[package]
name = "kade-ide"
version = "0.1.0"
edition = "2021"
publish = false

[dependencies]
anyhow = "=1.0.104"
dirs = "=7.0.0"
log = "=0.4.34"
tauri = { version = "2", default-features = false, features = ["wry", "tray-icon"] }
thiserror = "=1.0.69"

[dev-dependencies]
tempfile = "=3.27.0"
