[package]
name = "maccel_gui"
version = "0.1.0"
edition = "2021"
publish = false

[dependencies]
anyhow = "=1.0.104"
iced = { version = "0.13", default-features = false, features = ["canvas", "tiny-skia"] }
rand = "=0.9.5"
