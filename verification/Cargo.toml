[package]
name = "polyclip"
version = "0.1.0"
edition = "2021"
publish = false

[dependencies]
i_overlay = "*"
serde = { version = "*", features = ["derive"] }
serde_json = "*"
