[package]
name = "pomo_tray"
version = "0.1.0"
edition = "2021"
publish = false

[dependencies]
log = "*"
tauri = { version = "*", default-features = false }
tauri-plugin-autostart = "*"
tauri-plugin-log = "*"
tauri-plugin-window-state = "*"
