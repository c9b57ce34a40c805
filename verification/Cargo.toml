[package]
name = "hd44780_simulator"
version = "0.1.0"
edition = "2021"
publish = false

[dependencies]
piston_window = "*"
image = "*"
