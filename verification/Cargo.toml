[package]
name = "archetype"
version = "0.1.0"
edition = "2021"
publish = false

[dependencies]
similar = "2"
serde = "1"
serde_json = "1"
paste = "1"
