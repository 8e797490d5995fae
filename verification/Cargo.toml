[package]
name = "roc_desk_sql"
version = "0.1.0"
edition = "2021"
publish = false

[dependencies]
sqlparser = "=0.63.0"
serde_json = "=1.0.154"
serde = { version = "=1.0.229", features = ["derive"] }
uuid = { version = "=1.29.0", features = ["v4"] }
chrono = "=0.4.45"
tokio = { version = "=1.54.1", features = ["full"] }
async-trait = "=0.1.92"
futures-util = "=0.3.34"
tokio-util = { version = "=0.7.20", features = ["compat"] }
rusqlite = { version = "=0.41.1", features = ["bundled"] }
mysql_async = { version = "=0.37.1", default-features = false, features = ["minimal-rust"] }
tokio-postgres = "=0.7.18"
deadpool-postgres = "=0.14.2"
tokio-postgres-rustls = "=0.14.0"
rustls = "=0.23.46"
rustls-native-certs = "=0.8.5"
tiberius = { version = "=0.12.3", default-features = false, features = ["tds73", "rustls"] }
bb8 = "=0.9.1"
bb8-tiberius = "=0.16.0"
