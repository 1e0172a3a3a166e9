[package]
name = "backyard_rain"
version = "0.1.0"
edition = "2021"
publish = false

[dependencies]
audio-codec-algorithms = "=0.8.1"
