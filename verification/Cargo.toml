[package]
name = "megui"
version = "0.1.0"
edition = "2021"
publish = false

[dependencies]
serde_json = "=1.0.154"
html2md = "=0.2.17"
ehttp = "=0.5.0"
eframe = { version = "=0.31.1", default-features = false, features = ["default_fonts", "glow", "x11"] }
egui_commonmark = { version = "=0.20.0", default-features = false, features = ["pulldown_cmark"] }
hframe = "0.4"
serde = { version = "=1.0.229", features = ["derive"] }
toml = { version = "=0.8.23", default-features = false, features = ["parse"] }
log = "=0.4.34"
wasm-bindgen = "=0.2.129"
wasm-bindgen-futures = "=0.4.79"
web-sys = "=0.3.106"
console_error_panic_hook = "=0.1.7"
tracing-wasm = "0.2"
