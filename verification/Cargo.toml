[package]
name = "phobia"
version = "0.1.0"
edition = "2021"
publish = false

[dependencies]
obj = "*"
itertools = "*"
log = "*"
winit = "0.28"
glium = "0.33"
