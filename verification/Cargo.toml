[package]
name = "cardgen"
version = "0.1.0"
edition = "2021"
publish = false

[dependencies]
base64 = "0.21"
image = "0.24"
resvg = "0.36"
usvg = "0.36"
