[package]
name = "flexrc"
version = "0.1.0"
edition = "2021"
publish = false

[dependencies]
static_assertions = "1"

[dev-dependencies]
loom = "0.7"
