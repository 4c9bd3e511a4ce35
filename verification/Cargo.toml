[package]
name = "hallways"
version = "0.1.0"
edition = "2021"
publish = false

[dependencies]
url = "2"
image = { version = "0.25", default-features = false, features = ["png", "jpeg"] }
gltf = "1"
glam = { version = "*", features = ["serde"] }
serde = { version = "1", features = ["derive"] }
serde_json = "1"
ureq = "2"
rayon = "1"
