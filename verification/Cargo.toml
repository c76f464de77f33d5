[package]
name = "stylus_benchmark"
version = "0.1.0"
edition = "2021"
publish = false

[dependencies]
sha3 = "=0.10.9"
wasmer = "=4.4.0"
wasmer-compiler-singlepass = "=4.4.0"
wasmer-compiler-cranelift = "=4.4.0"
