[package]
name = "tari_universe"
version = "0.1.0"
edition = "2021"
publish = false

[dependencies]
anyhow = "1"
dirs = "*"
log = "0.4"
regex = "1"
serde = { version = "1", features = ["derive"] }
serde_json = "1"
tari_shutdown = "*"
tokio = { version = "1", features = ["sync", "process", "fs", "rt", "io-util", "macros"] }
