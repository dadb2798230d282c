[package]
name = "vulkan_renderer"
version = "0.1.0"
edition = "2021"
publish = false

[dependencies]
ash = "0.38"
drm = "0.14"
rustix = { version = "1", features = ["fs", "event"] }
wayland-server = "0.31"
