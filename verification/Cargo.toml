[package]
name = "radiant"
version = "0.1.0"
edition = "2021"
publish = false

[dependencies]
bytemuck = "1"
epaint = { version = "0.22", default-features = false, features = ["bytemuck"] }
log = "0.4"
serde = { version = "1", features = ["derive"] }
wgpu = "0.16"
