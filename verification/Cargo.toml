[package]
name = "project_peril"
version = "0.1.0"
edition = "2021"
publish = false

[dependencies]
bit-vec = "0.6"
serde = { version = "1", features = ["derive"] }
serde_json = "1"
cgmath = "0.17"
winit = "0.19"
ash = "0.29"
image = "0.21"
