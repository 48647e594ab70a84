[package]
name = "doc_search"
version = "0.1.0"
edition = "2021"
publish = false

[dependencies]
axum = "=0.6.20"
nanoid = "=0.4.0"
serde = { version = "=1.0.229", features = ["derive"] }
tantivy = "=0.21.1"
tokio = { version = "=1.54.1", features = ["full"] }
tower = "=0.4.13"
tower-http = { version = "=0.4.4", features = ["trace"] }
tracing = "=0.1.44"
tracing-subscriber = "=0.3.23"
url = "=2.5.8"
# tantivy's term dictionary is built on zstd 0.12, whose bindings predate zstd 1.5.7
zstd-sys = "=2.0.9"

[dev-dependencies]
tempdir = "=0.3.7"
