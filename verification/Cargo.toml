[package]
name = "splat_interact"
version = "0.1.0"
edition = "2021"
publish = false

[dependencies]
ewebsock = "=0.8.0"
glam = "=0.30.10"
macaw = { version = "=0.30.0", features = ["serde"] }
serde = { version = "=1.0.229", features = ["derive"] }
serde_json = "=1.0.154"
url = "=2.5.8"
wgpu = "26"
wgpu-3dgs-viewer = "=0.4.1"
