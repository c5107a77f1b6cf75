[package]
name = "imgui_overlay"
version = "0.1.0"
edition = "2021"
publish = false

[dependencies]
imgui = "*"
imgui-winit-support = "*"
winit = "*"
shrev = "*"
