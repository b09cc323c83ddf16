[package]
name = "qwik_ask"
version = "0.1.0"
edition = "2021"
publish = false

[dependencies]
serde = { version = "=1.0.229", features = ["derive"] }
serde_json = "=1.0.154"
tauri = { version = "=2.12.5", default-features = false }
tauri-plugin-autostart = "2"
tauri-plugin-global-shortcut = "=2.4.1"
