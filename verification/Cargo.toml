[package]
name = "chord_hook"
version = "0.1.0"
edition = "2021"
publish = false

[dependencies]
enigo = "=0.6.1"
windows = { version = "0.59", features = ["Win32_Foundation", "Win32_System_LibraryLoader", "Win32_UI_Input_KeyboardAndMouse", "Win32_UI_WindowsAndMessaging"] }
winreg = "=0.56.0"
