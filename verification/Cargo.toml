[package]
name = "voxxele"
version = "0.1.0"
edition = "2021"
publish = false

[dependencies]
bytemuck = "=1.25.2"
egui = { version = "=0.28.1", default-features = false }
egui-winit = { version = "=0.28.1", default-features = false, features = ["x11"] }
glam = "=0.28.0"
winit = { version = "=0.29.15", default-features = false, features = ["x11", "rwh_06"] }
