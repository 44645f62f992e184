[package]
name = "sprite_game"
version = "0.1.0"
edition = "2021"
publish = false

[dependencies]
hashbrown = "0.6"
gl = "0.14"
sdl2 = "0.32"
png = "0.14"
rand = "0.6"
time = "0.1"
cgmath = "0.17"
