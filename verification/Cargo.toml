[package]
name = "timelapse_cam"
version = "0.1.0"
edition = "2021"
publish = false

[dependencies]
humantime = "*"
