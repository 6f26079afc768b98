[package]
name = "rustkeyboard"
version = "0.1.0"
edition = "2021"
publish = false

[dependencies]
serde = { version = "1", features = ["derive"] }
serde_json = "1"
hidapi = { version = "2", default-features = false, features = ["linux-native-basic-udev"] }
windows-sys = { version = "0.52", features = ["Win32_Foundation", "Win32_UI_WindowsAndMessaging", "Win32_UI_Shell", "Win32_System_LibraryLoader", "Win32_Graphics_Gdi"] }
eframe = { version = "0.29", default-features = false, features = ["default_fonts", "glow", "x11"] }
