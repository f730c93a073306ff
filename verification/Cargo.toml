[package]
name = "mouse_passthrough"
version = "0.1.0"
edition = "2021"
publish = false

[dependencies]
raw-window-handle = "=0.6.2"
windows = { version = "=0.57.0", features = ["Win32_Foundation", "Win32_Graphics_Gdi", "Win32_UI_WindowsAndMessaging"] }
log = "0.4"
serde = { version = "1", features = ["derive"] }
