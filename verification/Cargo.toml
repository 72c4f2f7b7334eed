[package]
name = "langra"
version = "0.1.0"
edition = "2021"
publish = false

[dependencies]
active-win-pos-rs = "=0.8.4"
arboard = "=3.6.1"
mouse_position = "=0.1.4"
x11rb = { version = "0.13", features = ["xtest"] }
xcb = "=1.7.1"
serde = { version = "=1.0.229", features = ["derive"] }
serde_json = "=1.0.151"
dirs = "=5.0.1"
