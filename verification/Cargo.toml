[package]
name = "factory_events"
version = "0.1.0"
edition = "2021"
publish = false

[dev-dependencies]
starknet-core = "*"
