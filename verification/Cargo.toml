[package]
name = "kad"
version = "0.1.0"
edition = "2021"
publish = false

[dependencies]
anyhow = "1"
async-trait = "0.1"
futures = "0.3"
rand = "0.8"
rsa = { version = "0.9", features = ["sha2", "pem", "std"] }
serde = { version = "1", features = ["derive"] }
serde_json = "1"
tarpc = { version = "*", features = ["tokio1", "serde-transport", "serde-transport-json", "tcp"] }
tokio = { version = "1", features = ["rt-multi-thread", "sync", "time", "macros", "net"] }
tracing = "0.1"
