[package]
name = "layer_dispatch"
version = "0.1.0"
edition = "2021"
publish = false

[dependencies]
ratatui = { version = "*", default-features = false }
mlua = { version = "*", features = ["lua54", "vendored"] }
