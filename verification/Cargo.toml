[package]
name = "harmonic"
version = "0.1.0"
edition = "2021"
publish = false

[dependencies]
async-trait = "0.1"
clap = { version = "4", features = ["derive", "env"] }
eyre = "0.6"
nix = { version = "0.25", default-features = false, features = ["process", "user"] }
owo-colors = "3.5"
rand = "0.8.5"
serde = { version = "1", features = ["derive"] }
serde_json = "1"
tokio = { version = "1", features = ["fs", "io-std", "io-util", "macros", "rt-multi-thread", "signal", "sync"] }
tracing = "0.1"
