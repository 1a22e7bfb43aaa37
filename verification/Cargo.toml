[package]
name = "vulkan_instance"
version = "0.1.0"
edition = "2021"
publish = false

[dependencies]
ash = "0.37"
log = "0.4"
raw-window-handle = "0.5"
profiling = "1"
android_system_properties = "0.1"
winapi = { version = "0.3", features = ["libloaderapi"] }
