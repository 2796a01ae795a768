[package]
name = "sealvault_core"
version = "0.1.0"
edition = "2021"
publish = false

[dependencies]
axum = "=0.6.20"
blake3 = { version = "=1.8.7", features = ["pure"] }
chrono = { version = "=0.4.45", default-features = false, features = ["std"] }
diesel = { version = "=2.3.14", features = ["sqlite"] }
dotenv = "=0.15.0"
env_logger = "=0.10.2"
generic-array = "0.14"
hyper = "=0.14.32"
log = "=0.4.34"
olpc-cjson = "=0.1.4"
serde = { version = "=1.0.229", features = ["derive"] }
serde_json = "=1.0.154"
tokio = { version = "=1.54.1", features = ["rt-multi-thread"] }
tower = { version = "=0.4.13", features = ["util"] }
tower-http = { version = "=0.4.4", features = ["fs", "trace"] }
url = "=2.5.8"

[dev-dependencies]
regex = "=1.13.1"
