[package]
name = "leopardwm"
version = "0.1.0"
edition = "2021"
publish = false

[dependencies]
png = "=0.18.1"
thiserror = "2"
tracing = "0.1"
tray-icon = "0.21"
windows = { version = "0.61", features = ["Win32_Foundation", "Win32_Graphics_Dwm", "Win32_UI_Accessibility", "Win32_UI_WindowsAndMessaging"] }
