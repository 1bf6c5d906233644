[package]
name = "rvmarm"
version = "0.1.0"
edition = "2021"
publish = false

[dependencies]
aarch64-cpu = "9"
tock-registers = "0.8"
buddy_system_allocator = "0.8"
