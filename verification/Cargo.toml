[package]
name = "sandkasse"
version = "0.1.0"
edition = "2021"
publish = false

[dependencies]
rmp-serde = "=1.3.1"
rquickjs = "=0.14.0"
serde = { version = "=1.0.229", features = ["derive"] }
wasmtime = "=29.0.1"
wasmtime-wasi = "=29.0.1"
wit-bindgen = "=0.63.0"
