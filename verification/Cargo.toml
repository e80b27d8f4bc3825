[package]
name = "bevy_fundsp"
version = "0.1.0"
edition = "2021"
publish = false

[dependencies]
bevy = { version = "=0.8.1", default-features = false, features = ["bevy_asset"] }
fundsp = "=0.9.0"
kira = { version = "=0.6.1", default-features = false, features = ["wav"] }
