[package]
name = "hover_controller"
version = "0.1.0"
edition = "2021"
publish = false

[dependencies]
avian2d = { version = "*", default-features = false, features = ["2d", "f32", "parry-f32"] }
bevy = { version = "*", default-features = false }
