[package]
name = "wdms2prod"
version = "0.1.0"
edition = "2021"
publish = false

[dependencies]
actix-web = "=4.18.1"
awc = "=3.11.0"
env_logger = "=0.10.2"
figment = { version = "=0.10.19", features = ["env", "json"] }
futures = "=0.3.34"
jsonschema = { version = "=0.17.1", default-features = false }
lazy_static = "=1.5.1"
log = "=0.4.35"
polars = { version = "=0.32.1", default-features = false, features = ["parquet", "dtype-u16", "fmt"] }
serde = { version = "=1.0.229", features = ["derive"] }
serde_json = "=1.0.154"
thiserror = "=1.0.69"
tokio = { version = "=1.54.1", features = ["macros", "rt-multi-thread"] }
url = "=2.5.8"
