[package]
name = "cargo_prepost"
version = "0.1.0"
edition = "2021"
publish = false

[dependencies]
cargo_metadata = "*"
clap = { version = "*", features = ["derive"] }
log = "*"
simple_logger = "*"
