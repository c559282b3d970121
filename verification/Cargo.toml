[package]
name = "ramlich"
version = "0.1.0"
edition = "2021"
publish = false

[dependencies]
chrono = { version = "=0.4.45", features = ["serde"] }
serde = { version = "=1.0.229", features = ["derive"] }
serde_json = "=1.0.151"
uuid = { version = "=1.27.0", features = ["v4", "serde"] }
log = "=0.4.34"
env_logger = "=0.11.11"
once_cell = "=1.21.4"
actix-web = "=4.15.0"
async-trait = "=0.1.92"
derive_more = { version = "=2.1.1", features = ["display", "error", "from"] }
url = "=2.5.8"
futures = "=0.3.34"
futures-timer = "=3.0.4"
tokio = { version = "=1.53.2", features = ["rt-multi-thread", "macros", "sync"] }
tokio-stream = "=0.1.19"
tokio-postgres = { version = "=0.7.18", features = ["with-uuid-1", "with-chrono-0_4"] }
deadpool-postgres = "=0.14.2"
tokio-pg-mapper = "=0.2.0"
tokio-pg-mapper-derive = "=0.2.0"
enum-map = "=3.1.0"
utoipa = { version = "=6.0.0", features = ["actix_extras"] }
reqwest = { version = "=0.13.5", default-features = false, features = ["json"] }
rdkafka = "=0.39.0"
unleash-api-client = { version = "=0.17.1", features = ["reqwest-client-13"] }
