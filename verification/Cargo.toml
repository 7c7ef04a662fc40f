[package]
name = "aa_standalone"
version = "0.1.0"
edition = "2021"
publish = false

[dependencies]
anyhow = "1"
clap = { version = "4", features = ["derive"] }
crossbeam-channel = "0.5"
curl = "0.4"
midir = "0.7"
portaudio = "0.7"
rimd = "0.0.1"
serde = { version = "1", features = ["derive"] }
serde_json = "1"
serde_repr = "0.1"
web-view = "0.7"
