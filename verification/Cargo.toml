[package]
name = "envrun"
version = "0.1.0"
edition = "2021"
publish = false

[dependencies]
anyhow = "*"
ctrlc = "*"
is-terminal = "*"
tokio = { version = "*", features = ["process", "rt", "macros"] }
