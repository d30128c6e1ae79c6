[package]
name = "kissabot"
version = "0.1.0"
edition = "2021"
publish = false

[dependencies]
anyhow = "1"
serde = { version = "1", features = ["derive"] }
serde_json = "1"
crossbeam-channel = "0.5"
flume = "0.11"
dashmap = "6"
log = "0.4"
colog = "1"
ctrlc = "3"
rayon = "1"
mlua = { version = "0.10", features = ["lua54", "vendored", "serialize"] }
