[package]
name = "tracing_web"
version = "0.1.0"
edition = "2021"
publish = false

[dependencies]
tracing-core = "=0.1.36"
tracing-subscriber = "=0.3.23"
wasm-bindgen = "=0.2.129"
js-sys = "=0.3.106"
web-sys = { version = "=0.3.106", features = ["console", "Performance"] }
