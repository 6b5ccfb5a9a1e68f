[package]
name = "alinkwise"
version = "0.1.0"
edition = "2021"
publish = false

[dependencies]
anyhow = "=1.0.104"
async-trait = "=0.1.92"
bigdecimal = "=0.4.11"
chrono = "=0.4.45"
diesel = { version = "=2.3.14", default-features = false, features = ["32-column-tables", "chrono", "numeric", "postgres_backend", "serde_json", "sqlite", "uuid"] }
diesel-async = { version = "=0.9.2", features = ["postgres", "sqlite"] }
handlebars = "=6.4.4"
# Builds SQLite along for the driver of diesel.
libsqlite3-sys = { version = "=0.35.0", features = ["bundled"] }
prometheus-client = "=0.25.2"
prost = "=0.14.4"
rand = "=0.10.3"
redis = { version = "=1.8.1", features = ["tokio-comp"] }
rumqttc = { version = "=0.25.1", features = ["url"] }
serde = { version = "=1.0.229", features = ["derive"] }
serde_json = "=1.0.154"
tokio = { version = "=1.54.1", features = ["macros", "rt", "sync", "time"] }
tokio-postgres = "=0.7.18"
tonic = "=0.14.9"
tracing = "=0.1.44"
uuid = "=1.29.0"
