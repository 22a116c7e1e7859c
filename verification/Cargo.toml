[package]
name = "contract_cache"
version = "0.1.0"
edition = "2021"
publish = false

[dependencies]
sha2 = "=0.10.9"
wasmer = { version = "=4.4.0", default-features = false, features = ["sys", "cranelift", "singlepass"] }
