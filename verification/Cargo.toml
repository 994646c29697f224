[package]
name = "kv_vault"
version = "0.1.0"
edition = "2021"
publish = false

[dependencies]
serde = { version = "=1.0.229", features = ["derive"] }
tokio = { version = "=1.54.1", features = ["macros", "rt", "sync", "time"] }
tracing = "=0.1.44"
url = "=2.5.8"
vaultrs = "=0.8.0"

[dev-dependencies]
serde_json = "=1.0.154"
