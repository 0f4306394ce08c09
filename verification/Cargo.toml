[package]
name = "forzalife"
version = "0.1.0"
edition = "2021"
publish = false

[dependencies]
ctrlc = "=3.5.2"
egui = "=0.37.0"
egui-wgpu = "=0.37.0"
evdev = "=0.13.2"
image = { version = "=0.25.10", default-features = false, features = ["png"] }
libc = "=0.2.191"
pollster = "=1.0.1"
raw-window-handle = "=0.6.2"
serde = { version = "=1.0.229", features = ["derive"] }
serde_json = "=1.0.154"
smithay-client-toolkit = { version = "=0.21.1", default-features = false }
wayland-client = { version = "=0.31.15", features = ["system", "dlopen"] }
x11rb = { version = "=0.14.0", features = ["xinput"] }
