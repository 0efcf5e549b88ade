[package]
name = "rubydns"
version = "0.1.0"
edition = "2021"
publish = false

[dependencies]
anyhow = "=1.0.104"
async-trait = "=0.1.92"
bincode = "=1.3.3"
bytes = "=1.12.1"
clap = { version = "=4.6.7", features = ["derive"] }
dashmap = "=5.5.3"
deadpool = "=0.9.5"
futures-util = "=0.3.34"
libc = "=0.2.191"
serde = { version = "=1.0.229", features = ["derive"] }
serde_yaml = "=0.9.34"
tap = "=1.0.1"
thiserror = "=1.0.69"
tokio = { version = "=1.54.1", features = ["rt-multi-thread", "net", "io-util", "fs", "macros", "sync"] }
tracing = "=0.1.44"
tracing-subscriber = "=0.3.23"
trust-dns-proto = { version = "=0.22.0", default-features = false }
wasi-cap-std-sync = "=8.0.1"
wasi-common = "=8.0.1"
wasmtime = { version = "=8.0.1", default-features = false, features = ["async", "component-model", "cranelift"] }
