[package]
name = "agentoven"
version = "0.1.0"
edition = "2021"
publish = false

[dependencies]
serde_json = "=1.0.154"
uuid = { version = "=1.29.0", features = ["v4"] }
chrono = "=0.4.45"
base64 = "=0.22.1"
url = "=2.5.8"
toml = "=0.8.23"
reqwest = { version = "=0.12.28", default-features = false, features = ["stream"] }
futures = "=0.3.34"
tokio = { version = "=1.54.1", features = ["macros", "rt-multi-thread", "fs", "signal", "time"] }
clap = { version = "=4.6.7", features = ["derive", "env"] }
colored = "=2.2.0"
dialoguer = "=0.11.0"
indicatif = "=0.17.11"
anyhow = "=1.0.104"
tracing = "=0.1.44"
tracing-subscriber = { version = "0.3", features = ["json", "env-filter"] }
tracing-opentelemetry = "0.28"
opentelemetry = "0.27"
opentelemetry_sdk = "0.27"
opentelemetry-otlp = { version = "0.27", features = ["grpc-tonic"] }
