[package]
name = "entity_rng"
version = "0.1.0"
edition = "2021"
publish = false

[dependencies]
turborand = { version = "=0.10.1", features = ["serialize", "chacha"] }
serde = "=1.0.229"
serde_json = "=1.0.151"
