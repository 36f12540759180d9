[package]
name = "waveform"
version = "0.1.0"
edition = "2021"
publish = false

[dependencies]
wasm-bindgen = "0.2"
web-sys = { version = "0.3", features = ["AnalyserNode", "AudioContext", "AudioContextOptions", "AudioNode", "BaseAudioContext", "CanvasRenderingContext2d", "Document", "Element", "HtmlCanvasElement", "MediaDevices", "MediaStream", "MediaStreamConstraints", "Navigator", "Window"] }
