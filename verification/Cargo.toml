[package]
name = "amm_math"
version = "0.1.0"
edition = "2021"
publish = false

[dependencies]
primitive-types = "0.13"
serde = { version = "1", features = ["derive"] }
