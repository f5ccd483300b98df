[package]
name = "sip_uac_bridge"
version = "0.1.0"
edition = "2021"
publish = false

[dependencies]
android_logger = "=0.15.1"
anyhow = "=1.0.104"
log = "=0.4.34"
tokio = { version = "=1.53.2", features = ["rt", "sync"] }
