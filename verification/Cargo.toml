[package]
name = "bevy_widget"
version = "0.1.0"
edition = "2021"
publish = false

[dependencies]
bevy_app = "0.10"
bevy_asset = "0.10"
bevy_ecs = "0.10"
bevy_input = "0.10"
bevy_math = "0.10"
bevy_render = "0.10"
bevy_sprite = "0.10"
bevy_text = "0.10"
bevy_transform = "0.10"
bevy_window = "0.10"
