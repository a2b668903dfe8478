[package]
name = "image_processor"
version = "0.1.0"
edition = "2021"
publish = false

[dependencies]
argparse-rs = "*"
image = "*"
