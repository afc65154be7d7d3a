[package]
name = "kinectosc"
version = "0.1.0"
edition = "2021"
publish = false

[dependencies]
ctrlc = "3"
nalgebra = "*"
notify = "4"
openvr = "*"
serde = { version = "1", features = ["derive"] }
serde_json = "1"
