[package]
name = "db_bootstrap"
version = "0.1.0"
edition = "2021"
publish = false

[dependencies]
anyhow = "1"
sqlx = { version = "0.8", default-features = false, features = ["runtime-tokio", "postgres", "migrate"] }

[dev-dependencies]
tokio = { version = "1", features = ["rt"] }
