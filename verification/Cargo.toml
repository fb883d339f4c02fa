[package]
name = "xiaomi-pc-manager-lite"
version = "1.0.0"
edition = "2021"
publish = false

[dependencies]
dirs = "=7.0.0"
eframe = { version = "=0.37.0", default-features = false, features = ["default_fonts", "glow", "x11"] }
env_logger = "=0.11.11"
libloading = "=0.9.0"
log = "*"
rust-embed = "=8.13.0"
serde = { version = "1", features = ["derive"] }
thiserror = "=2.0.21"
toml = "=1.1.8"
windows = { version = "=0.62.2", features = ["Win32_Foundation", "Win32_System_Com", "Win32_System_LibraryLoader", "Win32_System_Ole", "Win32_System_Power", "Win32_System_Services", "Win32_System_Variant", "Win32_System_Wmi", "Win32_UI_Input_KeyboardAndMouse", "Win32_UI_Shell", "Win32_UI_WindowsAndMessaging"] }
