[package]
name = "ray_tracer"
version = "0.1.0"
edition = "2021"
publish = false

[dependencies]
anyhow = "=1.0.104"
bytemuck = { version = "=1.25.2", features = ["derive"] }
env_logger = "=0.10.2"
glam = "=0.23.0"
gltf = "=1.4.1"
imgui = "=0.11.0"
imgui-wgpu = "=0.23.0"
imgui-winit-support = "=0.11.0"
log = "=0.4.34"
mint = "=0.5.9"
rand = "=0.8.8"
tobj = { version = "=3.2.5", features = ["async"] }
wgpu = "=0.16.3"
winit = { version = "=0.27.5", default-features = false, features = ["x11"] }
