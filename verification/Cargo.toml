[package]
name = "iced_blocks"
version = "0.1.0"
edition = "2021"
publish = false

[dependencies]
url = "2"
iced = { version = "0.14", default-features = false, features = ["advanced", "wgpu"] }
iced_wgpu = "0.14"
glam = "0.30"
bytemuck = { version = "1", features = ["derive"] }
dpi = "0.1"
euclid = "0.22"
futures = "0.3"
tracing = "0.1"
tracing-subscriber = { version = "0.3", features = ["env-filter"] }
image = { version = "0.25", default-features = false }
