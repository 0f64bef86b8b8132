[package]
name = "activity_tracker"
version = "0.1.0"
edition = "2021"
publish = false

[dependencies]
chrono = "=0.4.45"
rusqlite = { version = "=0.40.2", features = ["bundled"] }
windows = { version = "=0.58.0", features = ["Win32_Foundation", "Win32_System_ProcessStatus", "Win32_System_Threading", "Win32_UI_Accessibility", "Win32_UI_WindowsAndMessaging"] }
