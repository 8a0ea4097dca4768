[package]
name = "pixel_art_shader"
version = "0.1.0"
edition = "2021"
publish = false
