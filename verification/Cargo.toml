[package]
name = "entitlement_core"
version = "0.1.0"
edition = "2021"
publish = false

[dependencies]
jsonwebtoken = { version = "=9.3.1", default-features = false }
ring = "=0.17.14"
serde = { version = "=1.0.229", features = ["derive"] }
serde_json = "=1.0.154"
toml = "=0.8.23"
rocket = { version = "=0.5.2", features = ["json"] }
rocket_sync_db_pools = { version = "=0.1.0", features = ["diesel_postgres_pool"] }
diesel = { version = "=2.3.14", features = ["postgres"] }
