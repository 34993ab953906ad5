[package]
name = "wasmcore"
version = "0.1.0"
edition = "2021"
publish = false

[dependencies]
wasmi = "=0.9.1"
parity-wasm = "=0.42.2"
