[package]
name = "fps_unlock"
version = "0.1.0"
edition = "2021"
publish = false

[dependencies]
serde_json = { version = "1", features = ["float_roundtrip"] }
rusqlite = { version = "0.31", features = ["bundled"] }
rfd = "0.15"
winreg = "0.52"
winapi = { version = "0.3", features = ["wincon", "windef", "winuser"] }
