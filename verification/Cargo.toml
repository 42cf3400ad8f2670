[package]
name = "stremio_border_breaker"
version = "0.1.0"
edition = "2021"
publish = false

[dependencies]
discord-rich-presence = "*"
flume = "*"
native-windows-gui = { version = "1", features = ["timer"] }
once_cell = "1"
serde = { version = "1", features = ["derive"] }
serde_json = "1"
winapi = { version = "0.3", features = ["winuser", "wingdi", "windef", "minwindef", "libloaderapi", "dwmapi"] }
