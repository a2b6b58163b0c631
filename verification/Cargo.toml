[package]
name = "imgui-winit-support"
version = "0.1.0"
edition = "2021"
publish = false

[dependencies]
imgui = "0.12"
winit = "0.30"
