[package]
name = "overlay_supervisor"
version = "0.1.0"
edition = "2021"
publish = false

[dependencies]
serde_json = "=1.0.154"
serde = { version = "=1.0.229", features = ["derive"] }
log = "=0.4.34"
tauri = { version = "2", default-features = false, features = ["wry"] }
