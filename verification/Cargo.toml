[package]
name = "openchat_backend"
version = "0.1.0"
edition = "2021"
publish = false

[dependencies]
pulldown-cmark = { version = "0.9", default-features = false }
portable-pty = "0.8"
wasm-bindgen = "0.2"
serde-wasm-bindgen = "0.4"
serde = { version = "1", features = ["derive"] }
