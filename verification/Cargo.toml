[package]
name = "pluggable_composition"
version = "0.1.0"
edition = "2021"
publish = false

[dependencies]
prost = "=0.14.4"
pbjson-types = "=0.9.0"
serde_json = "=1.0.154"
function-sdk-rust = "=0.4.0"
tonic = "=0.14.9"
tokio = { version = "=1.54.1", features = ["macros", "rt-multi-thread"] }
clap = { version = "=4.6.7", features = ["derive"] }
tracing = "=0.1.44"
