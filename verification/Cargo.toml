[package]
name = "task_board"
version = "0.1.0"
edition = "2021"
publish = false

[dependencies]
yew = "0.18"
wasm-bindgen = "0.2"
