[package]
name = "kerkenez"
version = "0.1.0"
edition = "2021"
publish = false

[dependencies]
bytemuck = { version = "1", features = ["derive"] }
glam = { version = "0.30", features = ["bytemuck"] }
glow = "0.16"
glutin = "0.32"
glutin-winit = "0.5"
image = { version = "0.25", default-features = false, features = ["png", "jpeg"] }
raw-window-handle = "0.6"
winit = "0.30"
