[package]
name = "rts_headless"
version = "0.1.0"
edition = "2021"
publish = false

[dependencies]
fixed = "=1.31.0"
typenum = "=1.20.1"
serde = { version = "=1.0.229", features = ["derive"] }
serde_json = "=1.0.154"
ron = "=0.8.1"
clap = { version = "=4.6.7", features = ["derive"] }
rayon = "1"
tracing = "0.1"
tracing-subscriber = "0.3"
