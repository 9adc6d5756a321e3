[package]
name = "shared_life"
version = "0.1.0"
edition = "2021"
publish = false

[dependencies]
futures = "0.1"
js-sys = "0.3"
percent-encoding = "1.0"
serde = { version = "1", features = ["derive"] }
serde_json = "1"
wasm-bindgen = { version = "0.2", features = ["serde-serialize"] }
wasm-bindgen-futures = "0.3"
web-sys = { version = "0.3", features = ["console", "Headers", "Request", "RequestInit", "RequestMode", "Response", "Window"] }
