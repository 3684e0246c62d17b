[package]
name = "aerion_control"
version = "0.1.0"
edition = "2021"
publish = false

[dependencies]
ifcfg = "*"
log = "0.4"
serde = { version = "1", features = ["derive"] }
serde_json = "1"
zmq = "0.10"
