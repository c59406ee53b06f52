[package]
name = "ajanta_build_tool"
version = "0.1.0"
edition = "2021"
publish = false

[dependencies]
anyhow = "1"
clap = { version = "4", features = ["derive"] }
jam-program-blob-common = "*"
polkavm-common = "*"
polkavm-disassembler = "*"
polkavm-linker = "*"
pyo3 = { version = "0.20", features = ["abi3-py38"] }
tempfile = "3"
