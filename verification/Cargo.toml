[package]
name = "scramble_text"
version = "0.1.0"
edition = "2021"
publish = false

[dependencies]
rand = "=0.8.8"
wasm-bindgen = "=0.2.129"
js-sys = "=0.3.106"
web-sys = { version = "=0.3.106", features = ["Window", "Document", "Element", "Node", "MediaQueryList"] }
serde = { version = "=1.0.229", features = ["derive"] }
serde-wasm-bindgen = "=0.6.5"
console_error_panic_hook = "=0.1.7"
