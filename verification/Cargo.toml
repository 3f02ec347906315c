[package]
name = "kleinian"
version = "0.1.0"
edition = "2021"
publish = false

[dependencies]
num-complex = "*"
bytemuck = "*"
clap = "*"
image = "*"
