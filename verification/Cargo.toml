[package]
name = "wasm_gen"
version = "0.1.0"
edition = "2021"
publish = false

[dependencies]
wasmer = "4"
