[package]
name = "guardian"
version = "0.1.0"
edition = "2021"
publish = false

[dependencies]
bevy = { version = "=0.12.1", default-features = false }
bevy_asset_loader = { version = "=0.18.0" }
bevy_rapier2d = { version = "=0.23.0", default-features = false, features = ["dim2", "headless"] }
