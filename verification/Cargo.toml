[package]
name = "image_converter"
version = "0.1.0"
edition = "2021"
publish = false

[dependencies]
image = "0.25"
webp = "*"
ico = "*"
ratatui = "0.29"
crossterm = "0.28"
dirs = "*"
thiserror = "*"
