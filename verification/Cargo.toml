[package]
name = "zkvm_bench"
version = "0.1.0"
edition = "2021"
publish = false

[dependencies]
alloy-primitives = { version = "=1.7.3", features = ["serde"] }
hex = "=0.4.3"
revm = { version = "=43.0.3", default-features = false, features = ["std", "serde"] }
serde = { version = "=1.0.229", features = ["derive"] }
serde_json = "=1.0.154"
clap = { version = "=4.6.7", features = ["derive", "env"] }
anyhow = "=1.0.104"
thiserror = "=2.0.21"
walkdir = "=2.5.0"
rayon = "=1.12.0"
sysinfo = "=0.39.6"
