[package]
name = "ysera_rhi"
version = "0.1.0"
edition = "2021"
publish = false

[dependencies]
ash = "0.37"
log = "0.4"
num = "0.4"
