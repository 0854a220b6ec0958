[package]
name = "pholidota"
version = "0.1.0"
edition = "2021"
publish = false

[dependencies]
ash = "0.32"
bitflags = "1"
cgmath = "0.18"
png = "0.16"
sdl2 = { version = "0.34", features = ["mixer"] }
vulkano = "0.24"
vulkano-shaders = "0.24"
