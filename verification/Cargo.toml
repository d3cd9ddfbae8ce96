[package]
name = "whipclaude"
version = "0.1.0"
edition = "2021"
publish = false

[dependencies]
rand = "0.9"
rodio = { version = "0.20", default-features = false, features = ["mp3"] }
enigo = "0.3"
image = { version = "0.25", default-features = false, features = ["png"] }
winapi = { version = "0.3", features = ["winuser"] }
