[package]
name = "scop"
version = "0.1.0"
edition = "2021"
publish = false

[dependencies]
rustc_apfloat = "=0.2.3"
ieee-apsqrt = "=0.1.1"
gl = "=0.14.0"
sdl2 = "=0.38.0"
image = "=0.25.10"
