[package]
name = "okbm"
version = "0.1.0"
edition = "2021"
publish = false

[dependencies]
keycode = "*"
scancode = "*"
