[package]
name = "sabitori"
version = "0.1.0"
edition = "2021"
publish = false

[dependencies]
anyhow = "1"
raw-window-handle = "0.6"
serde = { version = "1", features = ["derive"] }
serde_json = "1"
windows = { version = "0.62", features = ["Win32_Foundation", "Win32_UI_WindowsAndMessaging", "Win32_System_Threading", "Win32_System_Registry", "Win32_Graphics_Dwm", "Win32_UI_HiDpi", "Win32_System_LibraryLoader", "Win32_Graphics_Gdi"] }
