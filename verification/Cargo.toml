[package]
name = "launcher_panel"
version = "0.1.0"
edition = "2021"
publish = false

[dependencies]
base64 = "*"
image = "*"
screenshots = "*"
