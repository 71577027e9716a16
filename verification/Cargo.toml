[package]
name = "dojo_world"
version = "0.1.0"
edition = "2021"
publish = false

[dependencies]
camino = { version = "1.1", features = ["serde1"] }
serde = { version = "1", features = ["derive"] }
serde_json = "1"
serde_with = "2.3"
smol_str = { version = "0.2", features = ["serde"] }
starknet = "0.10"
starknet-crypto = "0.6"
console = "0.15"
clap = { version = "4", features = ["derive"] }
clap_complete = "4"
tracing = "0.1"
