[package]
name = "hunter_sim"
version = "0.1.0"
edition = "2021"
publish = false

[dependencies]
fastrand = "*"
rand = "*"
rayon = "*"
clap = { version = "*", features = ["derive"] }
serde = { version = "*", features = ["derive"] }
serde_json = "*"
serde_yaml = "*"
