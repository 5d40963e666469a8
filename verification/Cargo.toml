[package]
name = "bsp"
version = "0.1.0"
edition = "2021"
publish = false

[dependencies]
zerocopy = { version = "0.8", features = ["derive"] }
zerocopy-derive = "0.8"
derive_more = { version = "*", features = ["try_from"] }
