[package]
name = "lightbeam"
version = "0.1.0"
edition = "2021"
publish = false

[dependencies]
wasmparser = "0.59.0"
cranelift-codegen = "0.67.0"
dynasmrt = "1.0.0"
itertools = "0.9.0"
