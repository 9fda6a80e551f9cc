[package]
name = "corallium_config"
version = "0.1.0"
edition = "2021"
publish = false

[dependencies]
chrono = "*"
gamepads = "*"
macroquad = "*"
system_shutdown = "*"
volumecontrol = "*"
