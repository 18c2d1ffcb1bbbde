[package]
name = "starter_flow_core"
version = "0.1.0"
edition = "2021"
publish = false

[dependencies]
uuid = { version = "=1.29.0", features = ["v4", "v5", "v7"] }
blake3 = "=1.8.7"
serde = { version = "=1.0.229", features = ["derive"] }
serde_json = "=1.0.154"
serde_yaml = "=0.9.34"
tokio = { version = "=1.54.1", features = ["rt-multi-thread", "macros", "time", "sync"] }
tracing = "=0.1.44"
async-trait = "=0.1.92"
thiserror = "=1.0.69"
chrono = "=0.4.45"
reqwest = { version = "=0.12.28", default-features = false, features = ["json"] }
notify = "=6.1.1"
jsonschema = { version = "=0.18.3", default-features = false }
schemars = { version = "0.8", default-features = false }
