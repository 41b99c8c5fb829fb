[package]
name = "jwt_dropper"
version = "0.1.0"
edition = "2021"
publish = false

[dependencies]
anyhow = "=1.0.104"
config = "=0.15.27"
serde = { version = "=1.0.229", features = ["derive"] }
spiffe = { version = "=0.18.0", features = ["workload-api-jwt"] }
tokio = { version = "=1.53.2", features = ["macros", "rt-multi-thread"] }
tracing = "=0.1.44"
tracing-subscriber = { version = "=0.3.23", features = ["env-filter"] }
