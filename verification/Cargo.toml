[package]
name = "shapefall"
version = "0.1.0"
edition = "2021"
publish = false

[dependencies]
rand = "=0.8.8"

[dependencies.quicksilver]
version = "=0.4.0"
default-features = false
features = ["ttf", "event-cache"]
