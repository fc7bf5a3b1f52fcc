[package]
name = "nih_plug_druid"
version = "0.1.0"
edition = "2021"
publish = false

[dependencies]
cocoa = "0.26.1"
crossbeam = "0.8.5"
druid = "0.8.3"
objc = "0.2.7"
serde = { version = "1.0.229", features = ["derive"] }
windows-sys = { version = "0.61.2", features = ["Win32_Foundation", "Win32_UI_WindowsAndMessaging", "Win32_System_Threading"] }
x11 = { version = "2.21.0", features = ["xlib"] }
