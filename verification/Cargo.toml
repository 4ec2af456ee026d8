[package]
name = "egui3ds"
version = "0.1.0"
edition = "2021"
publish = false

[dependencies]
egui = "*"
bytemuck = "*"
swizzle_3ds = "0.2.0"
