[package]
name = "allibrary"
version = "0.1.0"
edition = "2021"
publish = false

[dependencies]
anyhow = "1"
async-socks5 = "0.6"
async-trait = "0.1"
bincode = "1.3"
chrono = "0.4"
futures = "0.3"
libp2p = { version = "0.53", features = ["tcp", "tokio", "noise", "yamux", "gossipsub", "kad", "macros", "ed25519", "request-response"] }
libp2p-request-response = "0.26"
md5 = "0.7"
mime_guess = "2"
multiaddr = "0.18"
serde = { version = "1", features = ["derive"] }
serde_json = "1"
sha2 = "0.10"
tokio = { version = "1", features = ["full"] }
tokio-util = { version = "0.7", features = ["compat"] }
tracing = "0.1"
uuid = { version = "1", features = ["v4"] }
