[package]
name = "dogkbd"
version = "0.1.0"
edition = "2021"
publish = false

[dependencies]
serde = { version = "=1.0.229", features = ["derive"] }
serde_json = "=1.0.154"
clap = { version = "=4.6.7", features = ["derive"] }
tokio = { version = "=1.54.1", features = ["rt-multi-thread", "net", "sync", "macros", "time"] }
axum = { version = "=0.8.9", features = ["ws"] }
chrono = "=0.4.45"
evdev = "=0.12.2"
eframe = { version = "=0.31.1", default-features = false, features = ["default_fonts", "glow", "x11"] }
windows = { version = "0.58", features = ["Win32_Foundation", "Win32_UI_WindowsAndMessaging", "Win32_System_Threading", "Win32_UI_Input_KeyboardAndMouse"] }
