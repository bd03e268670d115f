[package]
name = "wallpad_bridge"
version = "0.1.0"
edition = "2021"
publish = false

[dependencies]
clap = { version = "4", features = ["derive"] }
config = "*"
rumqttd = "*"
serialport = { version = "4", default-features = false }
tracing-subscriber = "0.3"
