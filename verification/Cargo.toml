[package]
name = "service_tray"
version = "0.1.0"
edition = "2021"
publish = false

[dependencies]
image = { version = "0.24", default-features = false, features = ["png", "ico"] }
tray-icon = "*"
tao = "*"
core-foundation = "*"
