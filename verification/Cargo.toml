[package]
name = "tangle_kit"
version = "0.1.0"
edition = "2021"
publish = false

[dependencies]
dotenvy = "0.15"
futures = "0.3"
iota-sdk = { version = "1.1", default-features = false, features = ["serde", "std"] }
serde_json = "1"
tokio = { version = "1", features = ["fs", "io-util", "macros", "rt-multi-thread"] }
