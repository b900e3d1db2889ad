[package]
name = "trunk_pipelines"
version = "0.1.0"
edition = "2021"
publish = false

[dependencies]
seahash = "4"
anyhow = "1"
nipper = "0.1"
serde = { version = "1", features = ["derive"] }
tokio = { version = "1", features = ["fs", "rt", "rt-multi-thread", "sync"] }
