[package]
name = "wasmer_dylib"
version = "0.1.0"
edition = "2021"
publish = false

[dependencies]
anyhow = "=1.0.104"
clap = { version = "=3.2.25", features = ["derive"] }
colored = "=2.2.0"
enum-iterator = "=0.7.0"
object = { version = "=0.28.4", default-features = false, features = ["read", "write"] }
wasmer-compiler = "=2.3.0"
wasmer-vm = "=2.3.0"
wasmer-runtime-core = "=0.17.1"
