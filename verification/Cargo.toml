[package]
name = "relay"
version = "0.1.0"
edition = "2021"
publish = false

[dependencies]
uuid = { version = "1", features = ["v4"] }
futures = "0.3"
wasm-bindgen-futures = "0.4"
worker = "*"
