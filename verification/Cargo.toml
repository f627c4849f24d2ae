[package]
name = "xcb_imdkit"
version = "0.1.0"
edition = "2021"
publish = false

[dependencies]
xcb = "0.9"
lazy_static = "1.4"
