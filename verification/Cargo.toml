[package]
name = "grpc_host"
version = "0.1.0"
edition = "2021"
publish = false

[dependencies]
tokio = { version = "*", features = ["macros", "rt-multi-thread", "signal", "time", "net"] }
axum = "*"
tonic = "*"
tonic-reflection = "*"
prost = "*"
serde = { version = "*", features = ["derive"] }
serde_yaml = "*"
async-trait = "*"
log = "*"
