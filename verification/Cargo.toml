[package]
name = "wasm_debugger"
version = "0.1.0"
edition = "2021"
publish = false

[dependencies]
gimli = "0.25"
wasmparser = "0.80"
object = "0.26"
memmap2 = "0.5"
lazy_static = "1.4"
parking_lot = "0.11"
thiserror = "1"
