[package]
name = "kindergarten"
version = "0.1.0"
edition = "2021"
publish = false

[dependencies]
actix-web = { version = "=4.18.1", default-features = false }
dashmap = "=6.2.1"
nix = { version = "=0.30.1", features = ["process", "signal"] }
serde = "=1.0.229"
tokio = { version = "=1.54.1", features = ["io-util", "process", "rt", "rt-multi-thread", "sync", "time"] }
uuid = { version = "=1.29.0", features = ["serde", "v4"] }

[dev-dependencies]
nix = { version = "=0.30.1", features = ["fs", "process", "signal"] }
