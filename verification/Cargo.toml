[package]
name = "ice_nudel_salat"
version = "0.1.0"
edition = "2021"
publish = false

[dependencies]
rand = "=0.9.5"
bevy = { version = "=0.19.1", default-features = false, features = ["bevy_state", "bevy_log", "multi_threaded", "std"] }
bevy_rapier2d = { version = "=0.36.0", default-features = false, features = ["dim2"] }
