[package]
name = "statemachine"
version = "0.1.0"
edition = "2021"
publish = false

[dependencies]
actix-files = "=0.6.10"
actix-web = { version = "=4.18.1", default-features = false, features = ["macros"] }
actix-web-opentelemetry = "=0.22.0"
awc = { version = "=3.11.0", default-features = false }
clap = { version = "=4.6.7", features = ["derive"] }
env_logger = "=0.11.11"
http-body = "=1.1.0"
lazy_static = "=1.5.1"
log = "=0.4.35"
opentelemetry = "=0.33.1"
opentelemetry-otlp = { version = "=0.33.1", features = ["grpc-tonic"] }
opentelemetry-semantic-conventions = "=0.33.1"
opentelemetry_sdk = { version = "=0.33.1", features = ["rt-tokio"] }
serde = { version = "=1.0.229", features = ["derive"] }
serde_yaml = "=0.9.34"
tokio = { version = "=1.54.1", features = ["macros", "rt-multi-thread"] }
tonic = "=0.14.9"
tower = "=0.5.3"
tracing = "=0.1.44"
tracing-actix-web = "=0.7.25"
tracing-awc = "=0.1.11"
tracing-opentelemetry = "=0.34.0"
tracing-subscriber = { version = "=0.3.23", features = ["env-filter"] }
url = "=2.5.8"
