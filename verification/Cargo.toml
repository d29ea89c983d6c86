[package]
name = "webpush_client"
version = "0.1.0"
edition = "2021"
publish = false

[dependencies]
aes-gcm = "0.10"
base64 = "0.22"
elliptic-curve = "0.13"
hkdf = "0.12"
p256 = { version = "0.13", features = ["ecdh"] }
rand = "0.8"
reqwest = { version = "0.12", default-features = false, features = ["json", "native-tls"] }
serde = { version = "1", features = ["derive"] }
serde_json = "1"
sha2 = "0.10"
tokio = { version = "1", features = ["macros", "rt-multi-thread"] }
uuid = { version = "1", features = ["v4"] }
websocket = { version = "0.27", default-features = false, features = ["sync", "sync-ssl"] }
