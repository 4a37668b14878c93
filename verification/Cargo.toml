[package]
name = "tracing_analogy"
version = "0.1.0"
edition = "2021"
publish = false

[dependencies]
gethostname = "0.4"
prost = "0.13"
prost-types = "0.13"
thread-id = "4"
tokio = { version = "1", features = ["macros", "rt-multi-thread", "sync"] }
tokio-stream = "0.1"
tonic = "0.12"
tracing = "0.1"
tracing-subscriber = { version = "0.3", features = ["env-filter", "json"] }
