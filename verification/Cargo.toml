[package]
name = "oxideplay"
version = "0.1.0"
edition = "2021"
publish = false

[dependencies]
ash = "=0.38.0"
bytemuck = "=1.25.2"
clap = { version = "=4.6.7", features = ["derive"] }
glow = "=0.18.0"
oxideav = "=0.0.5"
oxideav-core = "=0.1.42"
oxideav-meta = { version = "=0.0.3", default-features = false }
oxideav-pixfmt = "=0.1.11"
oxideav-source = "=0.1.5"
oxideav-sysaudio = "=0.1.1"
oxideav-vdpau = "=0.0.2"
pollster = "=1.0.1"
serde_json = "=1.0.154"
wgpu = "=30.0.1"
winit = "=0.30.13"
x11-dl = "=2.21.0"
