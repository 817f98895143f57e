[package]
name = "auto_fov"
version = "0.1.0"
edition = "2021"
publish = false

[dependencies]
amethyst = { version = "0.15.3", default-features = false, features = ["renderer", "empty"] }
log = "0.4"
serde = { version = "1.0", features = ["derive"] }
