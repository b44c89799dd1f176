[package]
name = "js_swc_adapter"
version = "0.1.0"
edition = "2021"
publish = false

[dependencies]
napi = { version = "=1.8.0", features = ["serde-json"] }
napi-derive = "=1.1.2"
serde = { version = "=1.0.229", features = ["derive"] }
serde-wasm-bindgen = "=0.6.5"
serde_json = "=1.0.154"
wasm-bindgen = "=0.2.129"
