[package]
name = "game_window"
version = "0.1.0"
edition = "2021"
publish = false

[dependencies]
winit = "0.24"
gfx-hal = "0.6"
gfx-backend-empty = "0.6"
shaderc = "0.7"
