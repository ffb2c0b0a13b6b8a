[package]
name = "counting_allocator"
version = "0.1.0"
edition = "2021"
publish = false

[dependencies]
cxx = "=1.0.202"
quinn-proto = { version = "=0.11.19", features = ["platform-verifier"] }
