[package]
name = "reqwest_chain"
version = "0.1.0"
edition = "2021"
publish = false

[dependencies]
anyhow = "1"
async-trait = "0.1"
reqwest = { version = "0.11", default-features = false, features = ["stream"] }
reqwest-middleware = "0.2"
task-local-extensions = "0.1"

[dev-dependencies]
futures-util = "0.3"
http = "0.2"
