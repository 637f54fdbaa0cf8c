[package]
name = "mic_capture"
version = "0.1.0"
edition = "2021"
publish = false

[dependencies]
gloo-file = { version = "=0.2.3", features = ["futures"] }
js-sys = "=0.3.69"
seed = "=0.10.0"
wasm-bindgen = "=0.2.92"
wasm-bindgen-futures = "=0.4.42"
web-sys = { version = "=0.3.69", features = ["Blob", "BlobEvent", "console", "MediaDevices", "MediaRecorder", "MediaRecorderOptions", "MediaStream", "MediaStreamConstraints", "Navigator", "Window"] }
