[package]
name = "opentaws"
version = "0.1.0"
edition = "2021"
publish = false

[dependencies]
hash32 = "=0.3.1"
heapless = "=0.8.0"
serde = { version = "=1.0.229", features = ["derive"] }
uom = "=0.38.0"
wasm-bindgen = "=0.2.129"
