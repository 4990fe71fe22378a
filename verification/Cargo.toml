[package]
name = "mqtt2influx_core"
version = "0.1.0"
edition = "2021"
publish = false

[dependencies]
actix-service = "2"
actix-web = { version = "4", default-features = false, features = ["macros"] }
anyhow = "1"
async-trait = "0.1"
chrono = "0.4"
clap = "2"
config = { version = "0.10", default-features = false, features = ["toml"] }
dotenv = "0.15"
futures = "0.3"
git-version = "0.3"
rand = "0.7"
reqwest = { version = "0.11", default-features = false }
rumqttc = "0.5"
serde = { version = "1", features = ["derive"] }
serde_json = "1"
thiserror = "1"
tokio = { version = "1", features = ["macros", "rt-multi-thread", "sync"] }
tracing = "0.1"
tracing-futures = "0.2"
tracing-log = { version = "0.1", features = ["env_logger"] }
tracing-subscriber = "0.2"
