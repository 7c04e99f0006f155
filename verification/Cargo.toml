[package]
name = "murdertime_5000"
version = "0.1.0"
edition = "2021"
publish = false

[dependencies]
glam = "*"
rand = "*"
bytemuck = "*"
log = "*"
env_logger = "*"
rolt = "*"
joltc-sys = "*"
hotham = "*"
ndk-glue = "*"
