[package]
name = "breez_nostr"
version = "0.1.0"
edition = "2021"
publish = false

[dependencies]
aes = "=0.8.4"
aes-gcm = "=0.10.3"
hex = "=0.4.3"
uuid = { version = "=1.29.0", features = ["v4"] }
nostr-sdk = { version = "=0.44.1", features = ["nip04", "nip44", "nip47", "nip57"] }
serde = { version = "=1.0.229", features = ["derive"] }
serde_json = "=1.0.154"
tokio = { version = "=1.54.1", features = ["sync", "time", "rt", "macros"] }
anyhow = "=1.0.104"
log = "=0.4.35"
async-trait = "=0.1.92"
thiserror = "=2.0.21"
urlencoding = "=2.1.3"
