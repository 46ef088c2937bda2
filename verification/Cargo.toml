[package]
name = "easeprobe"
version = "0.1.0"
edition = "2021"
publish = false

[dependencies]
anyhow = "=1.0.104"
chrono = "=0.4.45"
clap = { version = "=4.6.7", features = ["derive"] }
log = "=0.4.34"
logforth = { version = "=0.30.1", features = ["starter-log"] }
reqwest = { version = "=0.13.5", default-features = false }
schemars = "=1.2.2"
serde = { version = "=1.0.229", features = ["derive"] }
serde_yaml = "=0.9.34"
tokio = { version = "=1.53.2", features = ["rt-multi-thread", "macros", "sync", "time"] }
