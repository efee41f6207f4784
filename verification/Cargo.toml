[package]
name = "portability_gfx"
version = "0.1.0"
edition = "2021"
publish = false
