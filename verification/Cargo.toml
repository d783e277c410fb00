[package]
name = "sipacker"
version = "0.1.0"
edition = "2021"
publish = false

[dependencies]
ezk-g711 = "=0.2.0"
tokio = { version = "*", features = ["rt-multi-thread", "sync", "time", "macros"] }
tokio-util = "*"
bytes = "*"
bytesstr = "*"
anyhow = "*"
clap = { version = "*", features = ["derive"] }
tracing = "*"
tracing-subscriber = { version = "*", features = ["env-filter"] }
ezk-sip-auth = "*"
ezk-sip-types = "*"
ezk-sip-core = "*"
ezk-sip-ua = { version = "*", default-features = false }
ezk-rtp = "*"
async-trait = "*"
