[package]
name = "mirth"
version = "0.1.0"
edition = "2021"
publish = false

[dependencies]
rand_core = "*"
rand_pcg = "*"
serde = { version = "*", features = ["derive"] }
serde_json = "*"
tracing = "*"
tracing-subscriber = "*"
