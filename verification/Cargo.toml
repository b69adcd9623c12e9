[package]
name = "pixelhost"
version = "0.1.0"
edition = "2021"
publish = false

[dependencies]
libloading = "=0.9.0"
windows = { version = "=0.58.0", features = [
    "Win32_Foundation",
    "Win32_Graphics_Gdi",
    "Win32_System_LibraryLoader",
    "Win32_UI_Input_XboxController",
    "Win32_UI_WindowsAndMessaging",
] }
