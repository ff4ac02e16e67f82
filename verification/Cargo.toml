[package]
name = "nimbus"
version = "0.1.0"
edition = "2021"
publish = false

[dependencies]
rkyv = "0.8"
ntex-bytes = "0.1"
ntex-codec = "0.6"
dashmap = "6"
tokio = { version = "1", features = ["sync", "time", "rt", "macros"] }
num_cpus = "1"
ntex = { version = "2", features = ["tokio"] }
ntex-tls = { version = "2", features = ["rustls"] }
ntex-util = "2"
futures = "0.3"
futures-core = "0.3"
futures-timer = "3"
async-lock = "3"
parking_lot = "0.12"
thiserror = "2"
tracing = "0.1"
rustls = { version = "0.23", default-features = false, features = ["ring", "std", "tls12", "logging"] }
rustls-pemfile = "2"
webpki-roots = "0.26"
hickory-resolver = "0.25"
tokio-stream = { version = "0.1", features = ["sync"] }
syn = { version = "2", features = ["full", "extra-traits"] }
quote = "1"
proc-macro2 = "1"
async-stream = "0.3"
