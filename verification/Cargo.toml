[package]
name = "strausslib"
version = "0.1.0"
edition = "2021"
publish = false

[dependencies]
async-trait = "0.1"
futures-util = "0.3"
redis = { version = "0.23", features = ["tokio-comp"] }
serde = { version = "1", features = ["derive"] }
serde_json = "1"
serde_yaml = "0.9"
tokio = { version = "1", features = ["rt", "rt-multi-thread", "macros", "sync"] }
twitch-irc = { version = "5", default-features = false, features = ["transport-tcp", "transport-tcp-rustls-webpki-roots", "with-serde"] }
