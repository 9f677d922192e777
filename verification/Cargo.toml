[package]
name = "klex"
version = "0.1.0"
edition = "2021"
publish = false

[dependencies]
anyhow = "1"
iced_graphics = "0.2"
iced_native = "0.4"
image = { version = "0.24", default-features = false, features = ["jpeg", "png"] }
ndarray = "0.15"
petgraph = "0.6"
