[package]
name = "rules_engine"
version = "0.1.0"
edition = "2021"
publish = false

[dependencies]
wasm-bindgen = "0.2"
wee_alloc = "0.4"
