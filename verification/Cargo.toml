[package]
name = "easel_libraw"
version = "0.1.0"
edition = "2021"
publish = false

[dependencies]
jpeg-decoder = { version = "=0.3.2", default-features = false, features = ["platform_independent"] }
