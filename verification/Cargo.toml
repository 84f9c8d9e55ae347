[package]
name = "vjoy_wrapper"
version = "0.1.0"
edition = "2021"
publish = false

[dependencies]
widestring = "=1.2.1"
winreg = "=0.10.1"
sdl2 = "=0.38.0"
