[package]
name = "ui-events-winit"
version = "0.1.0"
edition = "2021"
publish = false

[dependencies]
keyboard-types = "*"
kurbo = "0.11"
winit = { version = "0.30", default-features = false, features = ["x11", "rwh_06"] }
