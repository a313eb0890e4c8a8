[package]
name = "authorization_registry"
version = "1.0.0"
edition = "2021"
publish = false

[dependencies]
anyhow = "1"
axum = { version = "=0.7.9", features = ["macros"] }
axum-extra = "=0.9.6"
chrono = "=0.4.45"
clap = { version = "4", features = ["derive"] }
sea-orm = { version = "=1.1.20", default-features = false, features = ["sqlx-postgres", "runtime-tokio-rustls"] }
serde = { version = "1", features = ["derive"] }
serde_json = "1"
tokio = { version = "1", features = ["full"] }
tower-http = { version = "=0.5.2", features = ["cors", "trace"] }
tracing = "0.1"
tracing-subscriber = { version = "0.3", features = ["env-filter"] }
utoipa = { version = "=5.5.0", features = ["uuid"] }
utoipa-swagger-ui = { version = "=8.0.3", features = ["axum", "vendored"] }
uuid = { version = "=1.29.0", features = ["serde"] }
# Only to hold the build of utoipa-swagger-ui to a release that it works with.
zip = { version = "~2.2", default-features = false, features = ["deflate"] }
