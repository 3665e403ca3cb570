[package]
name = "wavekat-asr"
version = "0.1.0"
edition = "2021"
publish = false

[dependencies]
hf-hub = { version = "0.5", default-features = false, features = ["ureq"] }
sherpa-onnx = "1.13"
thiserror = "2"
tracing = "0.1"
wavekat-core = "*"
