[package]
name = "keyhelper"
version = "0.1.0"
edition = "2021"
publish = false

[dependencies]
evdev = "*"
enigo = "*"
rdev = "*"
serde = { version = "*", features = ["derive"] }
serde_json = "*"
