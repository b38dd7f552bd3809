[package]
name = "ecoclient"
version = "0.1.0"
edition = "2021"
publish = false

[dependencies]
rltk = "0.6"
serde = { version = "1", features = ["derive"] }
serde_json = "1"
specs = "0.16"
specs-derive = "0.4"
wasm-bindgen = "0.2"
