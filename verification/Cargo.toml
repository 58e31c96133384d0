[package]
name = "fan_modbus"
version = "0.1.0"
edition = "2021"
publish = false

[dependencies]
crc = "3"
serialport = { version = "4", default-features = false }
axum = "0.7"
tokio = { version = "1", features = ["macros", "rt-multi-thread", "net", "sync"] }
tokio-stream = { version = "0.1", features = ["sync"] }
tower-http = { version = "0.5", features = ["fs"] }
log = "0.4"
simple_logger = "*"
