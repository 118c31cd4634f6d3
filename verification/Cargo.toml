[package]
name = "p2pmidi"
version = "0.1.0"
edition = "2021"
publish = false

[dependencies]
libp2p = { version = "0.52", default-features = false, features = ["async-std", "dcutr", "dns", "ed25519", "identify", "macros", "noise", "ping", "quic", "relay", "tcp", "yamux"] }
futures = "0.3"
futures-timer = "3"
serde = { version = "1", features = ["derive"] }
serde_yaml = "0.9"
clap = { version = "4", features = ["derive"] }
shellexpand = "3"
atty = "0.2"
