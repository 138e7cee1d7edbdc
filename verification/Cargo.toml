[package]
name = "fan_controller"
version = "0.1.0"
edition = "2021"
publish = false

[dependencies]
embedded-graphics = "=0.8.2"
panic-halt = "=0.2.0"
ssd1306 = "=0.8.4"

[dev-dependencies]
embedded-hal = "=0.2.7"
