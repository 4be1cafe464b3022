[package]
name = "bevy_svg_processor"
version = "0.1.0"
edition = "2021"
publish = false

[dependencies]
bevy_app = "0.14"
bevy_asset = "0.14"
bevy_ecs = "0.14"
bevy_reflect = "0.14"
bevy_utils = "0.14"
image = { version = "0.25", default-features = false, features = ["png"] }
resvg = "0.45"
serde = { version = "1", features = ["derive"] }
tiny-skia = "0.11"
usvg = "0.45"
