[package]
name = "robot_buddy_game"
version = "0.1.0"
edition = "2021"
publish = false

[dependencies]
rand = { version = "0.8", features = ["small_rng"] }
serde_json = { version = "1", features = ["raw_value"] }
