[package]
name = "frame_host"
version = "0.1.0"
edition = "2021"
publish = false

[dependencies]
bincode = "=1.0.1"
env_logger = "=0.5.13"
euclid = "=0.19.9"
gleam = "=0.6.19"
glutin = "=0.22.1"
webrender = "=0.58.0"
