[package]
name = "blue_engine_imgui"
version = "0.1.0"
edition = "2021"
publish = false

[dependencies]
blue_engine = "=0.4.24"
imgui = "=0.9.0"
imgui-wgpu = "0.21"
imgui-winit-support = "0.9"
