[package]
name = "favorites"
version = "0.1.0"
edition = "2021"
publish = false

[dependencies]
axum = "=0.7.9"
chrono = "=0.4.45"
config = { version = "=0.14.1", default-features = false, features = ["toml"] }
dotenv = "=0.15.0"
rusqlite = { version = "=0.30.0", features = ["bundled"] }
serde = { version = "=1.0.229", features = ["derive"] }
serde_json = "=1.0.154"
sqlx = { version = "=0.7.4", default-features = false, features = ["runtime-tokio", "sqlite"] }
tokio = { version = "=1.54.1", features = ["full"] }
tower = "=0.4.13"
tower-http = { version = "=0.5.2", features = ["cors", "trace"] }
tracing = "=0.1.44"
tracing-subscriber = { version = "=0.3.23", features = ["env-filter"] }
utoipa = "=4.2.3"
utoipa-swagger-ui = { version = "=7.1.0", features = ["axum", "vendored"] }
