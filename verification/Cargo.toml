[package]
name = "rnes"
version = "0.1.0"
edition = "2021"

[dependencies]
crossbeam-channel = "0.5"
nfd = "0.0.4"
sdl2 = "0.37"
