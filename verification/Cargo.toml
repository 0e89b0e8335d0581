[package]
name = "drawlist_renderer"
version = "0.1.0"
edition = "2021"
publish = false

[dependencies]
glow = "=0.6.1"
glutin = "=0.26.0"
imgui = "=0.7.0"
imgui-winit-support = "=0.7.1"
