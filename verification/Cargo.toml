[package]
name = "esp_demo"
version = "0.1.0"
edition = "2021"
publish = false

[dependencies]
bevy_ecs = { version = "*", default-features = false }
critical-section = { version = "1", features = ["std"] }
embassy-executor = "*"
embassy-sync = "*"
embassy-time = "*"
embedded-graphics = "0.8"
embedded-hal = "1"
embedded-hal-bus = "*"
log = "0.4"
mipidsi = "*"
static_cell = "*"
