[package]
name = "quadruped_gait"
version = "0.1.0"
edition = "2021"
rust-version = "1.95"
publish = false

[dependencies]
clarabel = "=0.11.1"
kstring = "=2.0.2"
nalgebra = "=0.33.3"
serde = { version = "1", features = ["derive"] }
tract-onnx = "=0.21.19"
