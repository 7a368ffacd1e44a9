[package]
name = "resa"
version = "0.1.0"
edition = "2021"
publish = false

[dependencies]
ansi_term = "0.12"
ash = "0.37"
ash-window = "0.11"
chrono = "0.4"
directories = "4"
lazy_static = "1"
num-format = "0.4"
sysinfo = "0.23"
winit = "0.26"
