[package]
name = "unit_convert"
version = "0.1.0"
edition = "2021"
publish = false

[dependencies]
anyhow = "1"
clap = { version = "4", features = ["derive"] }
hashbrown = "0.15"
serde = { version = "1", features = ["derive"] }
serde-wasm-bindgen = "*"
thousands = "*"
wasm-bindgen = "0.2"
