[package]
name = "gamepad_mouse_control"
version = "0.2.0"
edition = "2021"
publish = false

[dependencies]
chrono = "0.4"
dirs = "5"
enigo = "0.1"
gilrs = "0.10"
log = "0.4"
serde = { version = "1", features = ["derive"] }
serde_json = "1"
simple_logger = "4"
