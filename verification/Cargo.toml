[package]
name = "fontmesh"
version = "0.1.0"
edition = "2021"
publish = false

[dependencies]
glam = "*"
lyon_tessellation = "*"
rustc-hash = "*"
ttf-parser = "*"
serde = { version = "*", features = ["derive"] }
