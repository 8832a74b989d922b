[package]
name = "tg2mx_bot"
version = "0.1.0"
edition = "2021"
publish = false

[dependencies]
anyhow = "=1.0.104"
dotenvy = "=0.15.7"
futures-util = "=0.3.34"
heck = "=0.4.1"
indexmap = "=2.14.2"
indoc = "=2.0.8"
log = "=0.4.34"
matrix-sdk = { version = "=0.6.2", default-features = false, features = ["rustls-tls"] }
monostate = "=0.1.18"
mstickerlib = { version = "=0.3.2", default-features = false, features = ["log"] }
pretty_env_logger = "=0.5.0"
reqwest = { version = "=0.11.27", default-features = false, features = ["rustls-tls"] }
ruma = { version = "=0.7.4", features = ["unstable-msc2677"] }
serde = { version = "=1.0.229", features = ["derive"] }
serde-big-array = "=0.5.1"
serde_json = "=1.0.154"
tokio = { version = "=1.54.1", features = ["macros", "rt-multi-thread", "time", "sync"] }
