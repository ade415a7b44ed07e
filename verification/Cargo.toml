[package]
name = "majordome"
version = "0.1.0"
edition = "2021"
publish = false

[dependencies]
tokio = { version = "1", features = ["rt-multi-thread", "macros", "sync", "time", "signal"] }
rand = "0.8"
uuid = { version = "1", features = ["v4"] }
moka = { version = "0.12", features = ["future"] }
dashmap = "5"
smallvec = "1"
async-trait = "0.1"
serde = { version = "1", features = ["derive"] }
scylla = "0.12"
axum = "0.7"
syn = "1"
quote = "1"
proc-macro2 = "1"
