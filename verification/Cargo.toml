[package]
name = "clouds_core"
version = "0.1.0"
edition = "2021"
publish = false

[dependencies]
bevy = { version = "0.17", default-features = false, features = ["bevy_render", "bevy_pbr", "bevy_asset"] }
