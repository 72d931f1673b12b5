[package]
name = "virt_core"
version = "0.1.0"
edition = "2021"
publish = false

[dependencies]
hex = "=0.4.3"
toml = "=0.5.11"
serde = { version = "=1.0.229", features = ["derive"] }
serde_derive = "=1.0.229"
glob = "=0.3.4"
vulkano = "=0.19.0"
vulkano-shaders = "=0.19.0"
vulkano-win = "=0.19.0"
winit = "=0.22.2"
vk-sys = "=0.5.2"
