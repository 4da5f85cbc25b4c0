[package]
name = "valence_logic"
version = "0.1.0"
edition = "2021"
publish = false

[dependencies]
bevy_ecs = "0.17"
bevy_app = "0.17"
serde = { version = "1", features = ["derive"] }
serde_json = "1"
anyhow = "1"
tracing = "0.1"
derive_more = { version = "2", features = ["deref"] }
