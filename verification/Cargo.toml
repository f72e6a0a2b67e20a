[package]
name = "nas_boot"
version = "0.1.0"
edition = "2021"
publish = false

[dependencies]
anyhow = "1.0"
axum = "0.8"
chrono = "0.4"
clap = { version = "4.5", features = ["derive"] }
clap-verbosity = "2.1"
eframe = { version = "0.31", default-features = false, features = ["glow", "default_fonts"] }
egui = { version = "0.31", default-features = false }
env_logger = "0.11"
hostname = "0.4"
log = "0.4"
multi_log = "0.1"
open = "5"
parking_lot = "0.12"
reqwest = { version = "0.12", default-features = false, features = ["json"] }
serde = { version = "1.0", features = ["derive"] }
serde_json = "1.0"
serde_yaml = "0.9"
tokio = { version = "1", features = ["full"] }
tokio-util = "0.7"
tray-item = "0.10"
winapi = { version = "0.3", features = ["winbase", "winnt", "errhandlingapi", "minwindef"] }
windows = { version = "0.61", features = ["Win32_Foundation", "Win32_Graphics_Gdi", "Win32_System_Console", "Win32_System_SystemInformation", "Win32_UI_Input_KeyboardAndMouse", "Win32_UI_WindowsAndMessaging"] }
windows-service = "0.8"
winreg = "0.55"
yaml-rust2 = "0.10"
