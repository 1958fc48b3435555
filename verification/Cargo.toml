[package]
name = "cacher"
version = "0.1.0"
edition = "2021"
publish = false

[dependencies]
lz-str = "*"
lz4_flex = "*"
chrono = "0.4"
wasm-bindgen = "0.2"
