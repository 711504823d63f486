[package]
name = "wasm_stack_consumer"
version = "0.1.0"
edition = "2021"
publish = false

[dependencies]
wasmparser = "*"

[dev-dependencies]
wat = "*"
