[package]
name = "pixels"
version = "0.1.0"
edition = "2021"
publish = false

[dependencies]
wgpu = { version = "=30.0.1", features = ["spirv"] }

[dev-dependencies]
byteorder = "=1.5.0"
