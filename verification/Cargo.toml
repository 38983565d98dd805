[package]
name = "octo_influx"
version = "0.1.0"
edition = "2021"
publish = false

[dependencies]
chrono = "=0.4.45"
eyre = "=0.6.14"
influxdb = "=0.8.0"
log = "=0.4.34"
octopower = "=0.2.1"
pretty_env_logger = "=0.5.0"
reqwest = "*"
serde_json = "*"
tokio = { version = "=1.53.2", features = ["macros", "rt-multi-thread"] }
