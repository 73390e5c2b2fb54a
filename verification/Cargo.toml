[package]
name = "winfo"
version = "0.1.0"
edition = "2021"
publish = false

[dependencies]
anyhow = "*"
windows = { version = "=0.58.0", features = [
    "Wdk_System_Threading",
    "Win32_Foundation",
    "Win32_Globalization",
    "Win32_Graphics_Gdi",
    "Win32_Storage_FileSystem",
    "Win32_System_Console",
    "Win32_System_Diagnostics_Debug",
    "Win32_System_ProcessStatus",
    "Win32_System_Threading",
    "Win32_UI_WindowsAndMessaging",
] }
windows-result = "=0.2.0"
