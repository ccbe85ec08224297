[package]
name = "tank"
version = "0.1.0"
edition = "2021"
publish = false

[dependencies]
anyhow = "=1.0.104"
bytemuck = "=1.25.2"
chrono = "=0.4.45"
encase = { version = "=0.11.2", features = ["glam"] }
env_logger = "=0.11.11"
glam = "=0.30.10"
image = { version = "0.25", default-features = false, features = ["png"] }
pollster = "=1.0.1"
raw-window-handle = "=0.6.2"
wgpu = "=30.0.1"
winit = "=0.30.13"
windows = { version = "=0.62.2", features = ["Win32_Foundation", "Win32_Graphics_Gdi", "Win32_System_LibraryLoader", "Win32_System_Registry", "Win32_System_Threading", "Win32_UI_Controls", "Win32_UI_WindowsAndMessaging"] }
