[package]
name = "type-c-service"
version = "0.1.0"
edition = "2021"
publish = false

[dependencies]
embassy-futures = "=0.1.2"
embassy-sync = "=0.7.2"
embassy-time = "=0.4.0"
log = "0.4"
