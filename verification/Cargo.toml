[package]
name = "lishuuro"
version = "0.1.0"
edition = "2021"
publish = false

[dependencies]
chrono = "=0.4.45"
rand = "=0.8.8"
base64 = "=0.13.1"
serde = { version = "=1.0.229", features = ["derive"] }
serde_json = "=1.0.154"
json_value_merge = "=2.0.1"
tokio = { version = "=1.54.1", features = ["full"] }
axum = { version = "=0.6.20", features = ["headers", "ws"] }
hyper = "=0.14.32"
tower-http = { version = "=0.4.4", features = ["cors"] }
futures = "=0.3.34"
mongodb = "=2.8.2"
bson = { version = "=2.15.0", features = ["chrono-0_4"] }
redis = { version = "=0.23.5", features = ["tokio-comp", "connection-manager"] }
async-session = "=3.0.0"
reqwest = { version = "=0.11.27", default-features = false, features = ["json", "rustls-tls"] }
dotenv = "=0.15.0"
time = "0.2"
