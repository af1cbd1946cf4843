[package]
name = "pathtracer"
version = "0.1.0"
edition = "2021"
publish = false

[dependencies]
bytemuck = "*"
glam = { version = "*", features = ["bytemuck"] }
gpgpu = "*"
image = "*"
oidn = "*"
rand = "*"
