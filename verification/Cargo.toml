[package]
name = "rot8"
version = "1.0.0"
edition = "2021"
publish = false

[dependencies]
regex = "1"
serde = { version = "1", features = ["derive"] }
serde_json = "1"
thiserror = "1"
clap = "3.2"
lazy_static = "1"
async-std = { version = "1", features = ["attributes"] }
async-trait = "0.1"
wayland-client = "0.31"
wayland-protocols-wlr = { version = "0.2", features = ["client"] }
