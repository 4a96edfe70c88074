[package]
name = "stack_lowering"
version = "0.1.0"
edition = "2021"
publish = false

[dependencies]
rhai = { version = "=1.27.0", features = ["internals"] }
im = "=15.1.0"
