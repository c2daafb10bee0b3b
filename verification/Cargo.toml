[package]
name = "cube_arena"
version = "0.1.0"
edition = "2021"
publish = false

[dependencies]
bevy = { version = "0.16", default-features = false, features = ["std", "async_executor", "multi_threaded", "bevy_pbr", "bevy_window", "bevy_text", "bevy_ui"] }
avian3d = { version = "0.3", default-features = false, features = ["3d", "f32", "parry-f32"] }
bevy_dev_tools = "0.16"
