[package]
name = "recorder_core"
version = "0.1.0"
edition = "2021"
publish = false

[dependencies]
rtc = "=0.21.0"
serde = { version = "=1.0.229", features = ["derive"] }
serde_json = "=1.0.151"
tokio = { version = "=1.53.2", features = ["net", "rt", "rt-multi-thread"] }
webrtc = "=0.21.0"
webrtc-util = "=0.17.2"
