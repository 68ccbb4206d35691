[package]
name = "oneio"
version = "0.19.0"
edition = "2021"
publish = false

[dependencies]
flate2 = "=1.1.10"
bzip2 = "=0.6.1"
lz4 = "=1.28.1"
xz2 = "=0.1.7"
zstd = "=0.13.3"
ring = "=0.17.14"
hex = "=0.4.3"
rustls = { version = "=0.23.46", features = ["ring"] }
reqwest = { version = "=0.12.28", default-features = false, features = ["blocking", "stream", "rustls-tls"] }
suppaftp = "=12.2.1"
rust-s3 = { version = "=0.35.1", default-features = false, features = ["sync", "http-credentials"] }
dotenvy = "=0.15.7"
clap = { version = "=4.6.7", features = ["derive"] }
serde = { version = "=1.0.229", features = ["derive"] }
serde_json = "=1.0.154"
thiserror = "=1.0.69"
tokio = { version = "=1.54.1", features = ["rt", "rt-multi-thread", "io-util", "fs", "macros"] }
tokio-util = { version = "=0.7.20", features = ["io"] }
futures = "=0.3.34"
async-compression = { version = "=0.4.51", features = ["tokio", "gzip", "bzip2", "zstd"] }
