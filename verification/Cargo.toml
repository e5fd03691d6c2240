[package]
name = "hoppscotch_agent"
version = "0.1.0"
edition = "2021"
publish = false

[dependencies]
aes-gcm = "0.10"
x25519-dalek = { version = "2", features = ["getrandom", "static_secrets"] }
uuid = { version = "1", features = ["v4"] }
chrono = "0.4"
rand = "0.8"
tokio-util = "0.7"
tokio = { version = "1", features = ["rt-multi-thread", "sync", "macros", "time"] }
serde = { version = "1", features = ["derive"] }
serde_json = "1"

[dev-dependencies]
base16 = "0.2"
