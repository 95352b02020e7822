[package]
name = "minhook-detours-rs"
version = "0.1.0"
edition = "2021"
publish = false

[dependencies]
minhook-detours-sys = "*"
thiserror = "*"
