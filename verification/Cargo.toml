[package]
name = "trigger-kinesis"
version = "0.3.0"
edition = "2021"
publish = false

[dependencies]
anyhow = "=1.0.104"
async-trait = "=0.1.92"
aws-config = { version = "=1.13.0", default-features = false, features = ["rt-tokio"] }
aws-sdk-kinesis = { version = "~1.115", default-features = false, features = ["rt-tokio"] }
futures = "=0.3.34"
proc-macro2 = "=1.0.107"
quote = "=1.0.47"
serde = { version = "=1.0.229", features = ["derive"] }
spin-executor = "=3.1.1"
syn = { version = "=2.0.119", features = ["full"] }
tokio = { version = "=1.54.1", features = ["rt", "sync", "time", "signal"] }
tracing = "=0.1.44"
wasmtime = { version = "=25.0.3", default-features = false, features = ["runtime", "component-model", "async"] }
wit-bindgen = "=0.16.0"
