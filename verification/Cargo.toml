[package]
name = "rs_boy"
version = "0.1.0"
edition = "2021"
publish = false

[dependencies]
env_logger = "*"
log = "*"
minifb = "*"
sdl2 = "*"
rust-libretro = "*"
