[package]
name = "rendiation"
version = "0.1.0"
edition = "2021"
publish = false

[dependencies]
log = "=0.4.34"
winit = { version = "=0.30.13", default-features = false, features = ["rwh_06", "wayland", "wayland-dlopen"] }
