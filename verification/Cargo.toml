[package]
name = "cgraph"
version = "0.1.0"
edition = "2021"
publish = false

[dependencies]
font-kit = "*"
winit = "0.28"
metal = "*"
cocoa = "*"
objc = "0.2"
raw-window-handle = "0.5"
core-graphics-types = "*"
glam = "*"
lyon = "*"
rustybuzz = "*"
pathfinder_geometry = "*"
image = "*"
memoffset = "*"
