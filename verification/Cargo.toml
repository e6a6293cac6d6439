[package]
name = "fps_paintball_wildwest"
version = "0.1.0"
edition = "2021"
publish = false
