[package]
name = "virtual_mic"
version = "0.1.0"
edition = "2021"
publish = false

[dependencies]
hex = "0.4"
ureq = { version = "2", features = ["json"] }
serde = { version = "1", features = ["derive"] }
serde_json = "1"
thiserror = "1"
rubato = "0.15"
libc = "0.2"
ndarray = "0.16"
tokenizers = "0.21"
ort = "2.0.0-rc.10"
sherpa-onnx = "1"
