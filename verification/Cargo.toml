[package]
name = "redis_to_websocket"
version = "0.1.0"
edition = "2021"
publish = false

[dependencies]
redis = "*"
tungstenite = "*"
log = "*"
env_logger = "*"
