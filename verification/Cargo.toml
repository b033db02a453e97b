[package]
name = "fluid_sim"
version = "0.1.0"
edition = "2021"
publish = false

[dependencies]
bevy = { version = "0.18", default-features = false, features = ["bevy_render", "bevy_winit", "bevy_state", "bevy_asset", "bevy_window"] }
bevy_egui = { version = "0.39", default-features = false, features = ["render"] }
