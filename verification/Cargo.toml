[package]
name = "unsteel_chez"
version = "0.1.0"
edition = "2021"
publish = false

[dependencies]
macroquad = { version = "=0.4.16", features = ["audio"] }
rand = "=0.8.8"
