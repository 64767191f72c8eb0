[package]
name = "gamemode"
version = "0.1.0"
edition = "2021"
publish = false

[dependencies]
auto-launch = "0.5"
dirs = "=5.0.1"
serde = { version = "=1.0.229", features = ["derive"] }
serde_json = "=1.0.154"
ureq = { version = "=2.12.1", features = ["json"] }
windows = { version = "=0.58.0", features = ["Win32_Foundation", "Win32_Security", "Win32_System_Diagnostics_ToolHelp", "Win32_System_Power", "Win32_System_ProcessStatus", "Win32_System_Registry", "Win32_System_Services", "Win32_System_Threading", "Win32_UI_WindowsAndMessaging"] }
