[package]
name = "branchless_test"
version = "0.1.0"
edition = "2021"
publish = false

[dependencies]
anyhow = "1"
cursive = { version = "0.20", default-features = false }
eyre = "0.6"
itertools = "0.10"
lazy_static = "1"
serde = { version = "1", features = ["derive"] }
serde_json = "1"
simple_logger = "1"
structopt = "0.3"
tracing = "0.1"
