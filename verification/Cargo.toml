[package]
name = "bbox_2d"
version = "0.1.0"
edition = "2021"
publish = false

[dependencies]
rstar = "=0.13.0"
serde = { version = "=1.0.229", features = ["derive"] }
