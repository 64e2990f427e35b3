[package]
name = "equal_area"
version = "0.1.0"
edition = "2021"
publish = false

[dependencies]
pso-rs = "=2.2.4"
plotters = "=0.3.7"
