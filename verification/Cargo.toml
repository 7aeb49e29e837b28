[package]
name = "druid_game"
version = "0.1.0"
edition = "2021"
publish = false

[dependencies]
image = { version = "=0.25.10", default-features = false, features = ["png"] }
async-trait = "=0.1.92"
