[package]
name = "ironverse"
version = "0.1.0"
edition = "2021"
publish = false

[dependencies]
tokio = { version = "1", features = ["sync", "rt", "rt-multi-thread", "macros", "io-util", "io-std", "time"] }
multiaddr = "*"
futures = "0.3"
libp2p = { version = "*", default-features = false, features = ["tokio", "tcp", "noise", "yamux", "gossipsub", "macros", "dns", "ed25519"] }
