[package]
name = "crystal_sim"
version = "0.1.0"
edition = "2021"
publish = false

[dependencies]
nalgebra = "*"
roots = "*"
wasm-bindgen = "*"
js-sys = "*"
console_error_panic_hook = "*"
