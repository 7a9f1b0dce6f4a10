[package]
name = "inky_epd"
version = "0.1.0"
edition = "2021"
publish = false

[dependencies]
bytemuck = { version = "*", features = ["extern_crate_alloc"] }
clap = { version = "*", features = ["derive"] }
env_logger = "*"
image = "*"
imagequant = "*"
log = "*"
rand = "*"
rgb = "*"
rppal = "*"
