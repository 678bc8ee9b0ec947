[package]
name = "ownref"
version = "0.1.0"
edition = "2021"
publish = false

[dev-dependencies]
owning_ref = "=0.4.1"
