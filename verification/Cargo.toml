[package]
name = "orkkypely"
version = "0.1.0"
edition = "2021"
publish = false

[dependencies]
pathfinding = "*"
serde = { version = "*", features = ["derive"] }
serde_json = "*"
notify = "*"
anyhow = "*"
