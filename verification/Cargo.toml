[package]
name = "carlink"
version = "0.1.0"
edition = "2021"
publish = false

[dependencies]
base64 = "0.22"
serde_json = "1"
nusb = "0.1"
tokio = { version = "1", features = ["rt-multi-thread", "sync", "time", "macros"] }
