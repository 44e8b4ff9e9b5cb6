[package]
name = "backend_manager"
version = "0.1.0"
edition = "2021"
publish = false

[dependencies]
anyhow = "=1.0.104"
log = "=0.4.34"
tauri = { version = "=2.12.5", default-features = false, features = ["wry"] }
tauri-plugin-log = "=2.10.1"
