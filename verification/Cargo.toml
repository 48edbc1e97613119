[package]
name = "win_desktop_duplication"
version = "0.1.0"
edition = "2021"
publish = false

[dependencies]
futures = "=0.3.34"
log = "=0.4.34"
tokio = { version = "=1.54.1", features = ["rt", "sync", "time"] }
windows = { version = "0.56", features = ["Win32_Foundation", "Win32_Graphics_Direct3D", "Win32_Graphics_Direct3D11", "Win32_Graphics_Dxgi", "Win32_Graphics_Dxgi_Common", "Win32_Graphics_Gdi", "Win32_Security", "Win32_System_Com", "Win32_System_StationsAndDesktops", "Win32_System_Threading", "Win32_UI_HiDpi", "Win32_UI_WindowsAndMessaging"] }
