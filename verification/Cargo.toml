[package]
name = "pebbles_game"
version = "0.1.0"
edition = "2021"
publish = false

[dependencies]
gstd = "*"
parity-scale-codec = { version = "*", features = ["derive"] }
