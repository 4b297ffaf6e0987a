[package]
name = "notan_draw"
version = "0.1.0"
edition = "2021"
publish = false

[dependencies]
notan_graphics = "=0.14.0"
notan_math = "=0.14.0"
