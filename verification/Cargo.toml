[package]
name = "santa_sam"
version = "0.1.0"
edition = "2021"
publish = false

[dependencies]
bevy_turborand = "*"
turborand = "*"
