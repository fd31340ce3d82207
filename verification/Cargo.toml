[package]
name = "multi_client"
version = "0.1.0"
edition = "2021"
publish = false

[dependencies]
naia-shared = "=0.25.0"
naia-client = { version = "=0.25.0", features = ["transport_webrtc"] }
naia-server = { version = "=0.25.0", features = ["transport_webrtc"] }
naia-client-socket = "=0.25.0"
log = "=0.4.35"
cfg-if = "=1.0.5"
simple_logger = "=5.2.0"
smol = "=2.0.2"
