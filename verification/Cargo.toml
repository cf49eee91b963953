[package]
name = "air_quality_monitor"
version = "0.1.0"
edition = "2021"
publish = false

[dependencies]
esp-hal-mdns = "*"
heapless = "*"
