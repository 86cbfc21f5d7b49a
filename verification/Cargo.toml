[package]
name = "wasi_experimental_network"
version = "0.1.0"
edition = "2021"
publish = false

[dependencies]
wasmer = "2"
wasmer-wasi-types = "2"
