[package]
name = "hermes_mqtt"
version = "0.1.0"
edition = "2021"
publish = false

[dependencies]
log = "=0.4.35"
rumqtt = "=0.31.0"
serde = "=1.0.229"
serde_json = "=1.0.154"
uuid = { version = "=1.29.0", features = ["v4"] }
