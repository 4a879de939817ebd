[package]
name = "processing_render"
version = "0.1.0"
edition = "2021"
publish = false

[dependencies]
bevy_camera = "=0.20.1"
bevy_color = "=0.20.1"
bevy_ecs = "=0.20.1"
bevy_math = "=0.20.1"
bevy_platform = "=0.20.1"
wgpu-types = "=30.0.1"
half = "=2.7.1"
thiserror = "=2.0.21"
