[package]
name = "mssql_query"
version = "0.1.0"
edition = "2021"
publish = false

[dependencies]
anyhow = "=1.0.104"
log = "=0.4.34"
serde = { version = "=1.0.229", features = ["derive"] }
serde_json = "=1.0.154"
tauri = { version = "2", default-features = false }
tiberius = "=0.12.3"
tokio = { version = "=1.54.1", features = ["net", "rt-multi-thread", "macros"] }
tokio-util = { version = "=0.7.20", features = ["compat"] }
