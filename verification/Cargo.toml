[package]
name = "steel_core"
version = "0.1.0"
edition = "2021"
publish = false

[dependencies]
simdnbt = "=0.9.0"
glam = "=0.34.2"
text_components = "=0.1.6"
