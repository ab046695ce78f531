[package]
name = "rtlsdr_nusb"
version = "0.1.0"
edition = "2021"
publish = false

[dependencies]
nusb = "*"
num-complex = "*"
wasm-bindgen-futures = "*"
futures-lite = "*"
