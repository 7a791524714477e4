[package]
name = "cen"
version = "0.1.0"
edition = "2021"
publish = false

[dependencies]
ash = "0.38"
ash-window = "0.13"
egui = "0.30"
egui-ash-renderer = { version = "0.7", features = ["gpu-allocator", "dynamic-rendering"] }
egui-winit = { version = "0.30", default-features = false }
egui_extras = "0.30"
env_logger = "0.11"
gpu-allocator = { version = "0.27", default-features = false, features = ["vulkan"] }
log = "0.4"
notify = "6"
notify-debouncer-mini = "0.4"
shaderc = "0.8"
slotmap = "1"
winit = "0.30"
