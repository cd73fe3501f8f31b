[package]
name = "stratus"
version = "0.1.0"
edition = "2021"
publish = false

[dependencies]
axum = "0.8"
axum-server = { version = "0.7", features = ["tls-rustls"] }
color-eyre = "0.6"
dotenvy = "0.15"
eyre = "0.6"
listenfd = "1"
tokio = { version = "1", features = ["macros", "rt-multi-thread"] }
tower = { version = "0.5", features = ["util"] }
tower-http = { version = "0.6", features = ["compression-gzip", "compression-zstd", "decompression-gzip", "decompression-zstd", "cors"] }
tracing = "0.1"
tracing-subscriber = { version = "0.3", features = ["env-filter", "json"] }

[dev-dependencies]
flate2 = "1"
http = "1"
zstd = "0.13"
