[package]
name = "respiration"
version = "0.1.0"
edition = "2021"
publish = false

[dependencies]
bevy_app = "0.14"
bevy_core = "0.14"
bevy_ecs = "0.14"
bevy_input = "0.14"
bevy_math = "0.14"
bevy_reflect = "0.14"
bevy_state = "0.14"
bevy_time = "0.14"
bevy_transform = "0.14"
