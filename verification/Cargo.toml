[package]
name = "trident"
version = "0.1.0"
edition = "2021"
publish = false

[dependencies]
anyhow = "1"
bincode = "1"
bitflags = "1"
clap = { version = "3", features = ["derive"] }
hpack = "0.3"
serde = { version = "1", features = ["derive"] }
