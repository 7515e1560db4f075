[package]
name = "ribbit_core"
version = "0.1.0"
edition = "2021"
publish = false

[dependencies]
qdrant-client = { version = "=1.6.0", default-features = false }
sqlx = { version = "0.7", default-features = false, features = ["runtime-tokio", "postgres", "macros"] }
async-openai = "0.18"
axum = "0.6"
tokio = { version = "1", features = ["macros", "rt-multi-thread", "sync"] }
serde = { version = "1", features = ["derive"] }
serde_json = "1"
dotenvy = "0.15"
tracing = "0.1"
tracing-subscriber = { version = "0.3", features = ["env-filter"] }
