[package]
name = "auraw"
version = "0.1.0"
edition = "2021"
publish = false

[dependencies]
anyhow = "1"
log = "0.4"
serde = { version = "1", features = ["derive"] }
half = "2"
wgpu = "*"
pollster = "*"
discord-rich-presence = "*"
