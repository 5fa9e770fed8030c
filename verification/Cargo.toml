[package]
name = "or_any"
version = "0.1.0"
edition = "2021"
publish = false

[dependencies]
structopt = "0.3"
tracing = "0.1"
tracing-subscriber = { version = "0.3", features = ["env-filter"] }
