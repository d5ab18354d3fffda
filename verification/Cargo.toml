[package]
name = "p5r-freecam"
version = "0.1.0"
edition = "2021"
publish = false

[dependencies]
allocator-api2 = "0.2"
bitflags = "=2.13.2"
glam = "=0.34.1"
imgui = "=0.12.0"
windows = { version = "=0.62.2", features = ["Win32_Foundation", "Win32_UI_Input_KeyboardAndMouse", "Win32_UI_WindowsAndMessaging"] }
