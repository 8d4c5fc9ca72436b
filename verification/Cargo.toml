[package]
name = "loopback_shell"
version = "0.1.0"
edition = "2021"
publish = false

[dependencies]
portpicker = "=0.1.1"
log = "0.4"
tauri = { version = "2", default-features = false, features = ["wry"] }
