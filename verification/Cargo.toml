[package]
name = "rusty"
version = "0.1.0"
edition = "2021"
publish = false

[dependencies]
inkwell = { version = "=0.5.0", default-features = false, features = ["llvm14-0-prefer-dynamic"] }
