[package]
name = "mdshell"
version = "0.1.0"
edition = "2021"
publish = false

[dependencies]
font-kit = "0.14"
serde = { version = "1", features = ["derive"] }
tauri = { version = "2", default-features = false }
windows = { version = "*", features = ["Win32_Foundation", "Win32_Storage_FileSystem", "Win32_System_Com", "Win32_UI_Shell"] }
