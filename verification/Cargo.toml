[package]
name = "korangar"
version = "0.1.0"
edition = "2021"
publish = false

[dependencies]
arrayvec = "0.7"
bytemuck = { version = "1", features = ["derive"] }
cgmath = "0.18"
derive-new = "0.7"
rayon = "1"
smallvec = { version = "1", features = ["const_new"] }
wgpu = "22"
winit = "0.30"
