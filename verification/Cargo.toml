[package]
name = "windows_service_controller"
version = "0.1.0"
edition = "2021"
publish = false

[dependencies]
windows = { version = "0.52", features = ["Win32_Foundation", "Win32_Security", "Win32_System_Services"] }
lazy_static = "1"
lers_windows_macro = "0.0.3"
