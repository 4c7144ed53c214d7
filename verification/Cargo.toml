[package]
name = "atom_simulator"
version = "0.1.0"
edition = "2021"
publish = false

[dependencies]
bytemuck = { version = "1", features = ["derive"] }
env_logger = { version = "0.11", default-features = false }
nalgebra-glm = "0.18"
pollster = "0.3"
rand = "0.8"
winit = { version = "=0.29.15", default-features = false, features = ["rwh_06", "x11"] }
